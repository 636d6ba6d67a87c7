//! The wrapper builders: assembly of one complete C entry point for a
//! synchronous method, and of the start/finish/sync triad for an
//! asynchronous one, from the per-method context and components.

use vstd::prelude::*;
use vstd::string::StringExecFns;

use crate::category::{spec_self_c_type, FfiType};
use crate::components::{FfiComponents, FfiComponentsView};
use crate::context::{FfiMethodContext, FfiMethodContextView};
use crate::transfer::{spec_convert_from, spec_convert_to, TransferMode};

verus! {

/// The receiver kind of one generated entry point.
pub enum FfiKind {
    /// No receiver; a successful result is the newly constructed object.
    Constructor,
    /// A borrowed receiver; `source_for_task` is the expression naming the
    /// retained handle reported as the originator of an async completion.
    Method { source_for_task: String },
}

/// The model of an `FfiKind`.
pub enum FfiKindView {
    Constructor,
    Method { source_for_task: Seq<char> },
}

impl View for FfiKind {
    type V = FfiKindView;

    open spec fn view(&self) -> FfiKindView {
        match self {
            FfiKind::Constructor => FfiKindView::Constructor,
            FfiKind::Method { source_for_task } => FfiKindView::Method {
                source_for_task: source_for_task@,
            },
        }
    }
}

/// What the async triad builder needs beyond the shared components.
pub struct AsyncFfiParams {
    /// The generated C type name of the owning type.
    pub c_type_name: String,
    /// The success payload type text of the underlying operation.
    pub ok_type: String,
    /// The arguments the blocking wrapper forwards to the start entry
    /// point: each followed by `, `.
    pub sync_call_args: String,
    pub kind: FfiKind,
    pub ffi_type: FfiType,
}

/// The model of an `AsyncFfiParams`.
pub struct AsyncFfiParamsView {
    pub c_type_name: Seq<char>,
    pub ok_type: Seq<char>,
    pub sync_call_args: Seq<char>,
    pub kind: FfiKindView,
    pub ffi_type: FfiType,
}

impl View for AsyncFfiParams {
    type V = AsyncFfiParamsView;

    open spec fn view(&self) -> AsyncFfiParamsView {
        AsyncFfiParamsView {
            c_type_name: self.c_type_name@,
            ok_type: self.ok_type@,
            sync_call_args: self.sync_call_args@,
            kind: self.kind@,
            ffi_type: self.ffi_type,
        }
    }
}

/// A builder holding everything one entry point (or triad) is assembled
/// from; the parameter list and the conversion statements can be replaced
/// wholesale where a caller adds a self parameter.
pub struct FfiBuilder {
    pub ctx: FfiMethodContext,
    pub components: FfiComponents,
    pub body: String,
    pub params_override: Option<String>,
    pub conversions_override: Option<Vec<String>>,
}

/// The model of an `FfiBuilder`.
pub struct FfiBuilderView {
    pub ctx: FfiMethodContextView,
    pub components: FfiComponentsView,
    pub body: Seq<char>,
    pub params_override: Option<Seq<char>>,
    pub conversions_override: Option<Seq<Seq<char>>>,
}

impl View for FfiBuilder {
    type V = FfiBuilderView;

    open spec fn view(&self) -> FfiBuilderView {
        FfiBuilderView {
            ctx: self.ctx@,
            components: self.components@,
            body: self.body@,
            params_override: match &self.params_override {
                Some(p) => Some(p@),
                None => None,
            },
            conversions_override: match &self.conversions_override {
                Some(c) => Some(c@.map_values(|s: String| s@)),
                None => None,
            },
        }
    }
}

/// The parameter list the builder emits: the override where one is set.
pub open spec fn spec_effective_params(b: FfiBuilderView) -> Seq<char> {
    match b.params_override {
        Some(p) => p,
        None => b.components.params,
    }
}

/// The conversion statements the builder emits: the override where one is
/// set.
pub open spec fn spec_effective_conversions(b: FfiBuilderView) -> Seq<Seq<char>> {
    match b.conversions_override {
        Some(c) => c,
        None => b.components.conversions,
    }
}

/// The error out-parameter of a fallible entry point.
pub open spec fn spec_error_param(is_fallible: bool) -> Seq<char> {
    if is_fallible {
        "error: *mut *mut ::glib::ffi::GError, "@
    } else {
        Seq::empty()
    }
}

/// The conversion statements laid out one per line, indented one level.
pub open spec fn spec_conversion_lines(convs: Seq<Seq<char>>) -> Seq<char>
    decreases convs.len(),
{
    if convs.len() == 0 {
        Seq::empty()
    } else {
        spec_conversion_lines(convs.drop_last()) + "    "@ + convs.last() + "\n"@
    }
}

/// The body of a fallible wrapper: on success convert the payload, on
/// failure store a fresh owned error object in the out-parameter (where
/// one was passed) and return the sentinel.
pub open spec fn spec_fallible_body(
    body: Seq<char>,
    ok_handler: Seq<char>,
    err_handler: Seq<char>,
) -> Seq<char> {
    "match "@ + body + " {\n        Ok(val) => "@ + ok_handler
        + ",\n        Err(e) => {\n            if !error.is_null() {\n                unsafe { *error = ::glib::translate::IntoGlibPtr::into_glib_ptr(e); }\n            }\n            "@
        + err_handler + "\n        }\n    }"@
}

/// The body of a synchronous wrapper: relay a fallible outcome, discard a
/// void result, convert any other result.
pub open spec fn spec_function_body(
    is_fallible: bool,
    body: Seq<char>,
    ok_handler: Seq<char>,
    err_handler: Seq<char>,
) -> Seq<char> {
    if is_fallible {
        spec_fallible_body(body, ok_handler, err_handler)
    } else if ok_handler == "()"@ {
        body + ";"@
    } else {
        "let val = "@ + body + ";\n    "@ + ok_handler
    }
}

/// One complete synchronous C entry point.
pub open spec fn spec_build_sync(b: FfiBuilderView) -> Seq<char> {
    "#[unsafe(no_mangle)]\npub unsafe extern \"C\" fn "@ + b.ctx.ffi_prefix + "("@
        + spec_effective_params(b) + spec_error_param(b.ctx.is_fallible) + ") -> "@
        + b.components.return_type + " {\n"@ + spec_conversion_lines(spec_effective_conversions(b))
        + "    "@ + spec_function_body(
        b.ctx.is_fallible,
        b.body,
        b.components.ok_handler,
        b.components.err_handler,
    ) + "\n}\n"@
}

/// The statement converting the raw cancellation token into an optional
/// owned token, borrowed from the caller.
pub open spec fn spec_cancellable_conversion() -> Seq<char> {
    spec_convert_from(
        TransferMode::Borrowed,
        "cancellable"@,
        "::std::option::Option<::gio::Cancellable>"@,
    )
}

/// The statement converting the raw completion-result argument into the
/// opaque completion-result object, borrowed from the caller.
pub open spec fn spec_result_conversion() -> Seq<char> {
    spec_convert_from(TransferMode::Borrowed, "result"@, "::gio::AsyncResult"@)
}

/// The task payload type: a fallible-void operation carries a placeholder
/// boolean, every other operation carries its payload type.
pub open spec fn spec_task_type(ok_type: Seq<char>) -> Seq<char> {
    if ok_type == "()"@ {
        "bool"@
    } else {
        ok_type
    }
}

/// The expression packaging the body's outcome for the task: a void
/// outcome becomes the placeholder, an infallible one is wrapped in
/// success.
pub open spec fn spec_task_result_expr(is_fallible: bool, is_void: bool) -> Seq<char> {
    if is_fallible {
        if is_void {
            "result.map(|_| true)"@
        } else {
            "result"@
        }
    } else if is_void {
        "{ let _ = result; Ok(true) }"@
    } else {
        "Ok(result)"@
    }
}

/// The source handed to the task at packaging time: only a method on a
/// reference-counted receiver retains a handle; a constructor's source is
/// resolved only after success.
pub open spec fn spec_source_object_for_task(ffi_type: FfiType, kind: FfiKindView) -> Seq<char> {
    if ffi_type is Object {
        match kind {
            FfiKindView::Constructor => "None::<&::gio::Cancellable>"@,
            FfiKindView::Method { source_for_task } => "Some(&"@ + source_for_task + ")"@,
        }
    } else {
        "None::<&::gio::Cancellable>"@
    }
}

/// The statement computing the source pointer handed to the completion
/// callback: the retained receiver for methods, the new object (on
/// success only) for constructors, null for value receivers.
pub open spec fn spec_callback_source_expr(ffi_type: FfiType, kind: FfiKindView) -> Seq<char> {
    if ffi_type is Object {
        match kind {
            FfiKindView::Constructor => "        let callback_source = task_result.as_ref().ok().map(|obj| "@
                + spec_convert_to(
                TransferMode::Borrowed,
                "::glib::object::Cast::upcast_ref::<::glib::Object>(obj)"@,
            ) + ").unwrap_or(::std::ptr::null_mut());\n"@,
            FfiKindView::Method { source_for_task } => "        let callback_source = "@
                + spec_convert_to(
                TransferMode::Borrowed,
                "::glib::object::Cast::upcast_ref::<::glib::Object>(&"@ + source_for_task + ")"@,
            ) + ";\n"@,
        }
    } else {
        "        let callback_source = ::std::ptr::null_mut();\n"@
    }
}

/// The self parameter of the finish entry point: none for a constructor,
/// the category's value type or a pointer to the C type otherwise.
pub open spec fn spec_finish_self_param(
    kind: FfiKindView,
    ffi_type: FfiType,
    c_type_name: Seq<char>,
) -> Seq<char> {
    match kind {
        FfiKindView::Constructor => Seq::empty(),
        FfiKindView::Method { .. } => match spec_self_c_type(ffi_type) {
            Some(t) => "_self: "@ + t + ", "@,
            None => "_self: *mut "@ + c_type_name + ", "@,
        },
    }
}

/// The self argument the blocking wrapper forwards to finish.
pub open spec fn spec_sync_self_param(kind: FfiKindView) -> Seq<char> {
    match kind {
        FfiKindView::Constructor => Seq::empty(),
        FfiKindView::Method { .. } => "self_param, "@,
    }
}

/// The error argument the blocking wrapper forwards to finish.
pub open spec fn spec_sync_error_arg(is_fallible: bool) -> Seq<char> {
    if is_fallible {
        ", error"@
    } else {
        Seq::empty()
    }
}

/// The body of the finish entry point: unwrap the one completion-result
/// of the matching start, then convert the payload or relay the error
/// exactly as a synchronous wrapper would.
pub open spec fn spec_finish_body(
    is_fallible: bool,
    is_void: bool,
    task_type: Seq<char>,
    ok_handler: Seq<char>,
    err_handler: Seq<char>,
) -> Seq<char> {
    if is_fallible {
        "match ::glib::object::Cast::downcast::<::gio::Task<"@ + task_type
            + ">>(result) {\n        Ok(task) => match unsafe { task.propagate() } {\n            Ok(val) => "@
            + ok_handler
            + ",\n            Err(e) => {\n                if !error.is_null() {\n                    unsafe { *error = ::glib::translate::IntoGlibPtr::into_glib_ptr(e); }\n                }\n                "@
            + err_handler + "\n            }\n        },\n        Err(_) => "@ + err_handler
            + ",\n    }"@
    } else if is_void {
        "match ::glib::object::Cast::downcast::<::gio::Task<"@ + task_type
            + ">>(result) {\n        Ok(task) => {\n            let _ = unsafe { task.propagate() }.unwrap();\n            "@
            + ok_handler + "\n        }\n        Err(_) => "@ + err_handler + ",\n    }"@
    } else {
        "match ::glib::object::Cast::downcast::<::gio::Task<"@ + task_type
            + ">>(result) {\n        Ok(task) => {\n            let val = unsafe { task.propagate() }.unwrap();\n            "@
            + ok_handler + "\n        }\n        Err(_) => "@ + err_handler + ",\n    }"@
    }
}

/// The non-blocking start entry point: convert the parameters, then
/// schedule the body on the ambient cooperative scheduler with
/// cancellation bridged through an abortable unit of work; package the
/// outcome and fire the completion callback exactly once.
pub open spec fn spec_async_start_text(
    async_name: Seq<char>,
    params: Seq<char>,
    convs: Seq<Seq<char>>,
    body: Seq<char>,
    task_result_expr: Seq<char>,
    source_object: Seq<char>,
    callback_source_expr: Seq<char>,
) -> Seq<char> {
    "#[unsafe(no_mangle)]\npub unsafe extern \"C\" fn "@ + async_name + "("@ + params
        + "cancellable: *mut ::gio::ffi::GCancellable, callback: ::gio::ffi::GAsyncReadyCallback, user_data: ::glib::ffi::gpointer) {\n"@
        + spec_conversion_lines(convs) + "    "@ + spec_cancellable_conversion() + "\n"@
        + "    ::glib::MainContext::default().spawn_local(async move {\n        let task_result = if let Some(ref cancellable) = cancellable {\n            let (abortable_op, abort_handle) = ::futures_util::future::abortable("@
        + body
        + ");\n            let handler_id = ::gio::prelude::CancellableExtManual::connect_cancelled(cancellable, move |_| { abort_handle.abort(); });\n            let abortable_result = abortable_op.await;\n            if let Some(id) = handler_id {\n                ::gio::prelude::CancellableExtManual::disconnect_cancelled(cancellable, id);\n            }\n            match abortable_result {\n                Ok(result) => "@
        + task_result_expr
        + ",\n                Err(_aborted) => Err(::glib::Error::new(::gio::IOErrorEnum::Cancelled, \"Operation was cancelled\")),\n            }\n        } else {\n            let result = "@
        + body + ".await;\n            "@ + task_result_expr
        + "\n        };\n        let task = unsafe { ::gio::Task::new("@ + source_object
        + ", cancellable.as_ref(), |_task, _result| {}) };\n        let async_result = ::glib::object::Cast::upcast_ref::<::gio::AsyncResult>(&task).clone();\n"@
        + callback_source_expr
        + "        unsafe { task.return_result(task_result); }\n        if let Some(cb) = callback {\n            unsafe { cb(callback_source, "@
        + spec_convert_to(TransferMode::Borrowed, "async_result"@)
        + ", user_data); }\n        }\n    });\n}\n"@
}

/// The finish entry point.
pub open spec fn spec_async_finish_text(
    finish_name: Seq<char>,
    finish_self_param: Seq<char>,
    error_param: Seq<char>,
    return_type: Seq<char>,
    finish_body: Seq<char>,
) -> Seq<char> {
    "#[unsafe(no_mangle)]\npub unsafe extern \"C\" fn "@ + finish_name + "("@ + finish_self_param
        + "result: *mut ::gio::ffi::GAsyncResult, "@ + error_param + ") -> "@ + return_type
        + " {\n    "@ + spec_result_conversion() + "\n    "@ + finish_body + "\n}\n"@
}

/// The blocking entry point: a fresh, single-use loop object is built for
/// this one call and driven until the completion callback has recorded
/// the result, which is then handed to finish. Note that the emitted loop
/// object, though private and single-use, pumps the ambient default
/// context — the nested-loop technique of the target runtime — whereas
/// the runtime model's blocking form gives the operation a wholly private
/// scheduler that shares nothing with the ambient one.
pub open spec fn spec_async_sync_text(
    sync_name: Seq<char>,
    async_name: Seq<char>,
    finish_name: Seq<char>,
    params: Seq<char>,
    error_param: Seq<char>,
    return_type: Seq<char>,
    sync_call_args: Seq<char>,
    sync_self_param: Seq<char>,
    sync_error_arg: Seq<char>,
) -> Seq<char> {
    "#[unsafe(no_mangle)]\npub unsafe extern \"C\" fn "@ + sync_name + "("@ + params
        + "cancellable: *mut ::gio::ffi::GCancellable, "@ + error_param + ") -> "@ + return_type
        + " {\n    struct CallbackData { result: ::std::option::Option<::gio::AsyncResult>, loop_: ::glib::MainLoop }\n    unsafe extern \"C\" fn callback(_source: *mut ::glib::gobject_ffi::GObject, result: *mut ::gio::ffi::GAsyncResult, user_data: ::glib::ffi::gpointer) {\n        let data = &mut *(user_data as *mut CallbackData);\n        "@
        + spec_result_conversion()
        + "\n        data.result = Some(result);\n        data.loop_.quit();\n    }\n    let context = ::glib::MainContext::default();\n    let loop_ = ::glib::MainLoop::new(Some(&context), false);\n    let mut callback_data = CallbackData { result: None, loop_: loop_.clone() };\n    unsafe { "@
        + async_name + "("@ + sync_call_args
        + "cancellable, Some(callback), &mut callback_data as *mut _ as ::glib::ffi::gpointer); }\n    loop_.run();\n    let result = "@
        + spec_convert_to(
        TransferMode::Borrowed,
        "callback_data.result.expect(\"callback was not called\")"@,
    ) + ";\n    unsafe { "@ + finish_name + "("@ + sync_self_param + "result"@ + sync_error_arg
        + ") }\n}\n"@
}

/// The whole emitted triad of one asynchronous method: start, finish and
/// blocking entry points, in that order.
pub open spec fn spec_build_async(b: FfiBuilderView, ap: AsyncFfiParamsView) -> Seq<char>
    recommends
        b.ctx.async_names is Some,
{
    let names = b.ctx.async_names->Some_0;
    let is_void = ap.ok_type == "()"@;
    spec_async_start_text(
        names.async_name,
        spec_effective_params(b),
        spec_effective_conversions(b),
        b.body,
        spec_task_result_expr(b.ctx.is_fallible, is_void),
        spec_source_object_for_task(ap.ffi_type, ap.kind),
        spec_callback_source_expr(ap.ffi_type, ap.kind),
    ) + spec_async_finish_text(
        names.finish_name,
        spec_finish_self_param(ap.kind, ap.ffi_type, ap.c_type_name),
        spec_error_param(b.ctx.is_fallible),
        b.components.return_type,
        spec_finish_body(
            b.ctx.is_fallible,
            is_void,
            spec_task_type(ap.ok_type),
            b.components.ok_handler,
            b.components.err_handler,
        ),
    ) + spec_async_sync_text(
        names.sync_name,
        names.async_name,
        names.finish_name,
        spec_effective_params(b),
        spec_error_param(b.ctx.is_fallible),
        b.components.return_type,
        ap.sync_call_args,
        spec_sync_self_param(ap.kind),
        spec_sync_error_arg(b.ctx.is_fallible),
    )
}

/// Append the conversion statements to `out`, one per line.
fn append_conversion_lines(out: &mut String, convs: &Vec<String>)
    ensures
        final(out)@ == old(out)@ + spec_conversion_lines(convs@.map_values(|s: String| s@)),
{
    let ghost cv = convs@.map_values(|s: String| s@);
    let ghost base = out@;
    let mut i: usize = 0;
    while i < convs.len()
        invariant
            i <= convs.len(),
            cv == convs@.map_values(|s: String| s@),
            cv.len() == convs@.len(),
            out@ == base + spec_conversion_lines(cv.take(i as int)),
        decreases convs.len() - i,
    {
        out.append("    ");
        out.append(convs[i].as_str());
        out.append("\n");
        proof {
            assert(cv.take((i + 1) as int).drop_last() =~= cv.take(i as int));
            assert(cv.take((i + 1) as int).last() == cv[i as int]);
            assert(cv[i as int] == convs@[i as int]@);
            assert(out@ =~= base + spec_conversion_lines(cv.take((i + 1) as int)));
        }
        i = i + 1;
    }
    proof {
        assert(cv.take(convs@.len() as int) =~= cv);
    }
}

impl FfiBuilder {
    /// Start a builder from a method's context and components.
    pub fn from_context(ctx: FfiMethodContext, components: FfiComponents) -> (r: FfiBuilder)
        ensures
            r@.ctx == ctx@,
            r@.components == components@,
            r@.body == Seq::<char>::empty(),
            r@.params_override is None,
            r@.conversions_override is None,
    {
        FfiBuilder { ctx, components, body: String::new(), params_override: None, conversions_override: None }
    }

    /// Set the expression invoking the underlying operation.
    pub fn with_body(self, body: String) -> (r: FfiBuilder)
        ensures
            r@ == (FfiBuilderView { body: body@, ..self@ }),
    {
        FfiBuilder { body, ..self }
    }

    /// Replace the emitted parameter list.
    pub fn with_params(self, params: String) -> (r: FfiBuilder)
        ensures
            r@ == (FfiBuilderView { params_override: Some(params@), ..self@ }),
    {
        FfiBuilder { params_override: Some(params), ..self }
    }

    /// Replace the emitted conversion statements.
    pub fn with_args(self, args: Vec<String>) -> (r: FfiBuilder)
        ensures
            r@ == (FfiBuilderView {
                conversions_override: Some(args@.map_values(|s: String| s@)),
                ..self@
            }),
    {
        FfiBuilder { conversions_override: Some(args), ..self }
    }

    /// Emit the one C entry point of a non-async method: convert every
    /// parameter, invoke the body, then relay the result per fallibility.
    pub fn build_sync(self) -> (r: String)
        ensures
            r@ == spec_build_sync(self@),
    {
        let ghost bv = self@;
        let mut s = String::from_str("#[unsafe(no_mangle)]\npub unsafe extern \"C\" fn ");
        s.append(self.ctx.ffi_prefix.as_str());
        s.append("(");
        match &self.params_override {
            Some(p) => s.append(p.as_str()),
            None => s.append(self.components.params.as_str()),
        };
        if self.ctx.is_fallible {
            s.append("error: *mut *mut ::glib::ffi::GError, ");
        }
        s.append(") -> ");
        s.append(self.components.return_type.as_str());
        s.append(" {\n");
        match &self.conversions_override {
            Some(c) => append_conversion_lines(&mut s, c),
            None => append_conversion_lines(&mut s, &self.components.conversions),
        };
        s.append("    ");
        if self.ctx.is_fallible {
            s.append("match ");
            s.append(self.body.as_str());
            s.append(" {\n        Ok(val) => ");
            s.append(self.components.ok_handler.as_str());
            s.append(
                ",\n        Err(e) => {\n            if !error.is_null() {\n                unsafe { *error = ::glib::translate::IntoGlibPtr::into_glib_ptr(e); }\n            }\n            ",
            );
            s.append(self.components.err_handler.as_str());
            s.append("\n        }\n    }");
        } else if self.components.ok_handler == String::from_str("()") {
            s.append(self.body.as_str());
            s.append(";");
        } else {
            s.append("let val = ");
            s.append(self.body.as_str());
            s.append(";\n    ");
            s.append(self.components.ok_handler.as_str());
        }
        s.append("\n}\n");
        proof {
            assert(s@ =~= spec_build_sync(bv));
        }
        s
    }

    /// Emit the three C entry points of one asynchronous method: the
    /// non-blocking start function, the completion/finish function, and
    /// the blocking wrapper. The blocking wrapper builds a single-use
    /// loop object scoped to the one call, but drives the ambient default
    /// context with it (see `spec_async_sync_text` for how this differs
    /// from the runtime model's wholly private scheduler).
    pub fn build_async(self, async_params: AsyncFfiParams) -> (r: String)
        requires
            self@.ctx.async_names is Some,
        ensures
            r@ == spec_build_async(self@, async_params@),
    {
        let ghost bv = self@;
        let ghost apv = async_params@;
        let names = self.ctx.async_names.as_ref().unwrap();
        proof {
            assert(names@ == bv.ctx.async_names->Some_0);
        }
        let is_fallible = self.ctx.is_fallible;
        let is_void = async_params.ok_type == String::from_str("()");
        let task_result_expr: &str = if is_fallible {
            if is_void {
                "result.map(|_| true)"
            } else {
                "result"
            }
        } else if is_void {
            "{ let _ = result; Ok(true) }"
        } else {
            "Ok(result)"
        };
        proof {
            assert(task_result_expr@ == spec_task_result_expr(is_fallible, apv.ok_type == "()"@));
        }
        let task_type: &str = if is_void {
            "bool"
        } else {
            async_params.ok_type.as_str()
        };
        proof {
            assert(task_type@ == spec_task_type(apv.ok_type));
        }
        let is_obj = async_params.ffi_type.is_gobject();
        let (source_object, callback_source_expr): (String, String) = if is_obj {
            match &async_params.kind {
                FfiKind::Constructor => {
                    let conv = TransferMode::Borrowed.convert_to(
                        "::glib::object::Cast::upcast_ref::<::glib::Object>(obj)",
                    );
                    let mut cse = String::from_str(
                        "        let callback_source = task_result.as_ref().ok().map(|obj| ",
                    );
                    cse.append(conv.as_str());
                    cse.append(").unwrap_or(::std::ptr::null_mut());\n");
                    (String::from_str("None::<&::gio::Cancellable>"), cse)
                },
                FfiKind::Method { source_for_task } => {
                    let mut so = String::from_str("Some(&");
                    so.append(source_for_task.as_str());
                    so.append(")");
                    let mut inner = String::from_str(
                        "::glib::object::Cast::upcast_ref::<::glib::Object>(&",
                    );
                    inner.append(source_for_task.as_str());
                    inner.append(")");
                    proof {
                        assert(inner@ =~= "::glib::object::Cast::upcast_ref::<::glib::Object>(&"@
                            + source_for_task@ + ")"@);
                    }
                    let conv = TransferMode::Borrowed.convert_to(inner.as_str());
                    let mut cse = String::from_str("        let callback_source = ");
                    cse.append(conv.as_str());
                    cse.append(";\n");
                    proof {
                        assert(so@ =~= "Some(&"@ + source_for_task@ + ")"@);
                    }
                    (so, cse)
                },
            }
        } else {
            (
                String::from_str("None::<&::gio::Cancellable>"),
                String::from_str("        let callback_source = ::std::ptr::null_mut();\n"),
            )
        };
        proof {
            assert(source_object@ =~= spec_source_object_for_task(apv.ffi_type, apv.kind));
            assert(callback_source_expr@ =~= spec_callback_source_expr(apv.ffi_type, apv.kind));
        }
        let finish_self_param: String = match &async_params.kind {
            FfiKind::Constructor => String::new(),
            FfiKind::Method { .. } => match async_params.ffi_type.self_c_type() {
                Some(t) => {
                    let mut s = String::from_str("_self: ");
                    s.append(t.as_str());
                    s.append(", ");
                    s
                },
                None => {
                    let mut s = String::from_str("_self: *mut ");
                    s.append(async_params.c_type_name.as_str());
                    s.append(", ");
                    s
                },
            },
        };
        proof {
            assert(finish_self_param@ =~= spec_finish_self_param(
                apv.kind,
                apv.ffi_type,
                apv.c_type_name,
            ));
        }
        let sync_self_param: &str = match &async_params.kind {
            FfiKind::Constructor => "",
            FfiKind::Method { .. } => "self_param, ",
        };
        let error_param: &str = if is_fallible {
            "error: *mut *mut ::glib::ffi::GError, "
        } else {
            ""
        };
        let sync_error_arg: &str = if is_fallible {
            ", error"
        } else {
            ""
        };
        proof {
            reveal_strlit("");
            assert(""@ =~= Seq::<char>::empty());
            assert(sync_self_param@ =~= spec_sync_self_param(apv.kind));
            assert(error_param@ =~= spec_error_param(is_fallible));
            assert(sync_error_arg@ =~= spec_sync_error_arg(is_fallible));
        }
        let mut finish_body = String::from_str(
            "match ::glib::object::Cast::downcast::<::gio::Task<",
        );
        finish_body.append(task_type);
        if is_fallible {
            finish_body.append(
                ">>(result) {\n        Ok(task) => match unsafe { task.propagate() } {\n            Ok(val) => ",
            );
            finish_body.append(self.components.ok_handler.as_str());
            finish_body.append(
                ",\n            Err(e) => {\n                if !error.is_null() {\n                    unsafe { *error = ::glib::translate::IntoGlibPtr::into_glib_ptr(e); }\n                }\n                ",
            );
            finish_body.append(self.components.err_handler.as_str());
            finish_body.append("\n            }\n        },\n        Err(_) => ");
            finish_body.append(self.components.err_handler.as_str());
            finish_body.append(",\n    }");
        } else if is_void {
            finish_body.append(
                ">>(result) {\n        Ok(task) => {\n            let _ = unsafe { task.propagate() }.unwrap();\n            ",
            );
            finish_body.append(self.components.ok_handler.as_str());
            finish_body.append("\n        }\n        Err(_) => ");
            finish_body.append(self.components.err_handler.as_str());
            finish_body.append(",\n    }");
        } else {
            finish_body.append(
                ">>(result) {\n        Ok(task) => {\n            let val = unsafe { task.propagate() }.unwrap();\n            ",
            );
            finish_body.append(self.components.ok_handler.as_str());
            finish_body.append("\n        }\n        Err(_) => ");
            finish_body.append(self.components.err_handler.as_str());
            finish_body.append(",\n    }");
        }
        proof {
            assert(finish_body@ =~= spec_finish_body(
                is_fallible,
                apv.ok_type == "()"@,
                spec_task_type(apv.ok_type),
                bv.components.ok_handler,
                bv.components.err_handler,
            ));
        }
        let params_ref: &String = match &self.params_override {
            Some(p) => p,
            None => &self.components.params,
        };
        let convs_ref: &Vec<String> = match &self.conversions_override {
            Some(c) => c,
            None => &self.components.conversions,
        };
        proof {
            assert(params_ref@ == spec_effective_params(bv));
            assert(convs_ref@.map_values(|s: String| s@) == spec_effective_conversions(bv));
        }
        // The start entry point.
        let mut start_text = String::from_str("#[unsafe(no_mangle)]\npub unsafe extern \"C\" fn ");
        start_text.append(names.async_name.as_str());
        start_text.append("(");
        start_text.append(params_ref.as_str());
        start_text.append(
            "cancellable: *mut ::gio::ffi::GCancellable, callback: ::gio::ffi::GAsyncReadyCallback, user_data: ::glib::ffi::gpointer) {\n",
        );
        append_conversion_lines(&mut start_text, convs_ref);
        start_text.append("    ");
        let cancellable_conv = TransferMode::Borrowed.convert_from(
            "cancellable",
            "::std::option::Option<::gio::Cancellable>",
        );
        start_text.append(cancellable_conv.as_str());
        start_text.append("\n");
        start_text.append(
            "    ::glib::MainContext::default().spawn_local(async move {\n        let task_result = if let Some(ref cancellable) = cancellable {\n            let (abortable_op, abort_handle) = ::futures_util::future::abortable(",
        );
        start_text.append(self.body.as_str());
        start_text.append(
            ");\n            let handler_id = ::gio::prelude::CancellableExtManual::connect_cancelled(cancellable, move |_| { abort_handle.abort(); });\n            let abortable_result = abortable_op.await;\n            if let Some(id) = handler_id {\n                ::gio::prelude::CancellableExtManual::disconnect_cancelled(cancellable, id);\n            }\n            match abortable_result {\n                Ok(result) => ",
        );
        start_text.append(task_result_expr);
        start_text.append(
            ",\n                Err(_aborted) => Err(::glib::Error::new(::gio::IOErrorEnum::Cancelled, \"Operation was cancelled\")),\n            }\n        } else {\n            let result = ",
        );
        start_text.append(self.body.as_str());
        start_text.append(".await;\n            ");
        start_text.append(task_result_expr);
        start_text.append("\n        };\n        let task = unsafe { ::gio::Task::new(");
        start_text.append(source_object.as_str());
        start_text.append(
            ", cancellable.as_ref(), |_task, _result| {}) };\n        let async_result = ::glib::object::Cast::upcast_ref::<::gio::AsyncResult>(&task).clone();\n",
        );
        start_text.append(callback_source_expr.as_str());
        start_text.append(
            "        unsafe { task.return_result(task_result); }\n        if let Some(cb) = callback {\n            unsafe { cb(callback_source, ",
        );
        let async_result_to_c = TransferMode::Borrowed.convert_to("async_result");
        start_text.append(async_result_to_c.as_str());
        start_text.append(", user_data); }\n        }\n    });\n}\n");
        proof {
            assert(start_text@ =~= spec_async_start_text(
                names@.async_name,
                spec_effective_params(bv),
                spec_effective_conversions(bv),
                bv.body,
                spec_task_result_expr(bv.ctx.is_fallible, apv.ok_type == "()"@),
                spec_source_object_for_task(apv.ffi_type, apv.kind),
                spec_callback_source_expr(apv.ffi_type, apv.kind),
            ));
        }
        // The finish entry point.
        let mut finish_text = String::from_str(
            "#[unsafe(no_mangle)]\npub unsafe extern \"C\" fn ",
        );
        finish_text.append(names.finish_name.as_str());
        finish_text.append("(");
        finish_text.append(finish_self_param.as_str());
        finish_text.append("result: *mut ::gio::ffi::GAsyncResult, ");
        finish_text.append(error_param);
        finish_text.append(") -> ");
        finish_text.append(self.components.return_type.as_str());
        finish_text.append(" {\n    ");
        let result_conv = TransferMode::Borrowed.convert_from("result", "::gio::AsyncResult");
        finish_text.append(result_conv.as_str());
        finish_text.append("\n    ");
        finish_text.append(finish_body.as_str());
        finish_text.append("\n}\n");
        proof {
            assert(finish_text@ =~= spec_async_finish_text(
                names@.finish_name,
                spec_finish_self_param(apv.kind, apv.ffi_type, apv.c_type_name),
                spec_error_param(bv.ctx.is_fallible),
                bv.components.return_type,
                spec_finish_body(
                    bv.ctx.is_fallible,
                    apv.ok_type == "()"@,
                    spec_task_type(apv.ok_type),
                    bv.components.ok_handler,
                    bv.components.err_handler,
                ),
            ));
        }
        // The blocking entry point.
        let mut sync_text = String::from_str("#[unsafe(no_mangle)]\npub unsafe extern \"C\" fn ");
        sync_text.append(names.sync_name.as_str());
        sync_text.append("(");
        sync_text.append(params_ref.as_str());
        sync_text.append("cancellable: *mut ::gio::ffi::GCancellable, ");
        sync_text.append(error_param);
        sync_text.append(") -> ");
        sync_text.append(self.components.return_type.as_str());
        sync_text.append(
            " {\n    struct CallbackData { result: ::std::option::Option<::gio::AsyncResult>, loop_: ::glib::MainLoop }\n    unsafe extern \"C\" fn callback(_source: *mut ::glib::gobject_ffi::GObject, result: *mut ::gio::ffi::GAsyncResult, user_data: ::glib::ffi::gpointer) {\n        let data = &mut *(user_data as *mut CallbackData);\n        ",
        );
        sync_text.append(result_conv.as_str());
        sync_text.append(
            "\n        data.result = Some(result);\n        data.loop_.quit();\n    }\n    let context = ::glib::MainContext::default();\n    let loop_ = ::glib::MainLoop::new(Some(&context), false);\n    let mut callback_data = CallbackData { result: None, loop_: loop_.clone() };\n    unsafe { ",
        );
        sync_text.append(names.async_name.as_str());
        sync_text.append("(");
        sync_text.append(async_params.sync_call_args.as_str());
        sync_text.append(
            "cancellable, Some(callback), &mut callback_data as *mut _ as ::glib::ffi::gpointer); }\n    loop_.run();\n    let result = ",
        );
        let callback_result_to_c = TransferMode::Borrowed.convert_to(
            "callback_data.result.expect(\"callback was not called\")",
        );
        sync_text.append(callback_result_to_c.as_str());
        sync_text.append(";\n    unsafe { ");
        sync_text.append(names.finish_name.as_str());
        sync_text.append("(");
        sync_text.append(sync_self_param);
        sync_text.append("result");
        sync_text.append(sync_error_arg);
        sync_text.append(") }\n}\n");
        proof {
            assert(sync_text@ =~= spec_async_sync_text(
                names@.sync_name,
                names@.async_name,
                names@.finish_name,
                spec_effective_params(bv),
                spec_error_param(bv.ctx.is_fallible),
                bv.components.return_type,
                apv.sync_call_args,
                spec_sync_self_param(apv.kind),
                spec_sync_error_arg(bv.ctx.is_fallible),
            ));
        }
        let mut out = start_text;
        out.append(finish_text.as_str());
        out.append(sync_text.as_str());
        proof {
            assert(out@ =~= spec_build_async(bv, apv));
        }
        out
    }
}

} // verus!
