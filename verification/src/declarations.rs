//! Rendering of struct definitions, functions, and impl blocks.
//!
//! A struct renders as an anonymous-tag typedef aliased to its name.  A
//! function renders its signature and braced body, or an `extern`
//! declaration when it is externally supplied.  An impl method is mangled
//! to `{Target}_{method}` and a self parameter becomes a leading
//! `{Target}* self` formal parameter.

use crate::ast::{Block, Function, ImplBlock, Param, StructDef, StructField};
use crate::buffer::CodeBuffer;
use crate::ctypes::{spec_c_renderable, spec_type_c, type_to_c};
use crate::errors::CodegenError;
use crate::statements::{emit_block, spec_block_depth, spec_block_lines, spec_block_wf};
use vstd::prelude::*;
use vstd::string::StringExecFns;

verus! {

/// The view of an optional impl-target name.
pub open spec fn spec_target_view(target: Option<&str>) -> Option<Seq<char>> {
    match target {
        Some(t) => Some(t@),
        None => None,
    }
}

/// One rendered struct field line.
pub open spec fn spec_struct_field_line(field: StructField) -> Seq<char> {
    "    "@ + spec_type_c(field.ty) + " "@ + field.name@ + ";"@
}

/// The lines of a struct definition: the typedef opener, one line per
/// field, the closing alias line, and a blank separator.
pub open spec fn spec_struct_lines(def: StructDef) -> Seq<Seq<char>> {
    seq!["typedef struct {"@] + def.fields@.map_values(|f: StructField| spec_struct_field_line(f))
        + seq!["} "@ + def.name@ + ";"@, ""@]
}

/// Every field type of the struct has a C rendering.
pub open spec fn spec_struct_wf(def: StructDef) -> bool {
    forall|i: int| 0 <= i < def.fields@.len() ==> spec_c_renderable(#[trigger] def.fields@[i].ty)
}

/// The parameter-list fold: walks the parameters in order, collecting the
/// rendered parts, and stops at the first structural error.  A self
/// parameter is rejected when one was already seen, or when no impl target
/// is known; otherwise it renders as `{Target}* self`.
pub open spec fn spec_params_fold(
    params: Seq<Param>,
    target: Option<Seq<char>>,
    fn_name: String,
    parts: Seq<Seq<char>>,
    self_seen: bool,
) -> Result<Seq<Seq<char>>, CodegenError>
    decreases params.len(),
{
    if params.len() == 0 {
        Ok(parts)
    } else {
        match params[0] {
            Param::SelfParam => {
                if self_seen {
                    Err(CodegenError::MultipleSelfParams { name: fn_name })
                } else {
                    match target {
                        None => Err(CodegenError::SelfParamOutsideImpl { name: fn_name }),
                        Some(t) => spec_params_fold(
                            params.drop_first(),
                            target,
                            fn_name,
                            parts.push(t + "* self"@),
                            true,
                        ),
                    }
                }
            },
            Param::Typed { name, ty } => spec_params_fold(
                params.drop_first(),
                target,
                fn_name,
                parts.push(spec_type_c(ty) + " "@ + name@),
                self_seen,
            ),
        }
    }
}

/// The parts joined by `, `.
pub open spec fn spec_join_comma(parts: Seq<Seq<char>>) -> Seq<char>
    decreases parts.len(),
{
    if parts.len() == 0 {
        Seq::empty()
    } else if parts.len() == 1 {
        parts[0]
    } else {
        spec_join_comma(parts.drop_last()) + ", "@ + parts.last()
    }
}

/// The rendered parameter list: the comma-joined parts, or `void` when
/// there are none.
pub open spec fn spec_format_params(
    params: Seq<Param>,
    target: Option<Seq<char>>,
    fn_name: String,
) -> Result<Seq<char>, CodegenError> {
    match spec_params_fold(params, target, fn_name, Seq::empty(), false) {
        Err(e) => Err(e),
        Ok(parts) => if parts.len() == 0 {
            Ok("void"@)
        } else {
            Ok(spec_join_comma(parts))
        },
    }
}

/// The rendered signature `{return} {name}({params})`, with the name
/// mangled to `{Target}_{name}` inside an impl block.
pub open spec fn spec_function_signature(f: Function, target: Option<Seq<char>>) -> Result<
    Seq<char>,
    CodegenError,
> {
    let ret = match f.return_type {
        Some(t) => spec_type_c(t),
        None => "void"@,
    };
    let fname = match target {
        Some(t) => t + "_"@ + f.name@,
        None => f.name@,
    };
    match spec_format_params(f.params@, target, f.name) {
        Err(e) => Err(e),
        Ok(ps) => Ok(ret + " "@ + fname + "("@ + ps + ")"@),
    }
}

/// The lines of one function: the signature as an `extern` declaration, or
/// the signature with its braced, indented body; each followed by a blank
/// separator line.
pub open spec fn spec_emit_function(f: Function, target: Option<Seq<char>>) -> Result<
    Seq<Seq<char>>,
    CodegenError,
> {
    match spec_function_signature(f, target) {
        Err(e) => Err(e),
        Ok(sig) => {
            if f.is_extern {
                if f.body is Some {
                    Err(CodegenError::ExternFunctionWithBody { name: f.name })
                } else {
                    Ok(seq!["extern "@ + sig + ";"@, ""@])
                }
            } else {
                match f.body {
                    None => Err(CodegenError::MissingFunctionBody { name: f.name }),
                    Some(b) => match spec_block_lines(b.statements@, 1) {
                        Err(e) => Err(e),
                        Ok(body_lines) => Ok(seq![sig + " {"@] + body_lines + seq!["}"@, ""@]),
                    },
                }
            }
        },
    }
}

/// The lines of an impl block: each method in order, mangled with the
/// target name.  A method marked as externally supplied is an error.
pub open spec fn spec_impl_methods(target: String, methods: Seq<Function>) -> Result<
    Seq<Seq<char>>,
    CodegenError,
>
    decreases methods.len(),
{
    if methods.len() == 0 {
        Ok(Seq::empty())
    } else if methods[0].is_extern {
        Err(CodegenError::ExternImplMethod { target, name: methods[0].name })
    } else {
        match spec_emit_function(methods[0], Some(target@)) {
            Err(e) => Err(e),
            Ok(first) => match spec_impl_methods(target, methods.drop_first()) {
                Err(e) => Err(e),
                Ok(rest) => Ok(first + rest),
            },
        }
    }
}

/// Every type in the function's signature has a C rendering, and its body,
/// if present, is a well-formed block.
pub open spec fn spec_fn_wf(f: Function) -> bool {
    &&& match f.return_type {
        Some(t) => spec_c_renderable(t),
        None => true,
    }
    &&& forall|i: int|
        0 <= i < f.params@.len() ==> match #[trigger] f.params@[i] {
            Param::Typed { ty, .. } => spec_c_renderable(ty),
            Param::SelfParam => true,
        }
    &&& match f.body {
        Some(b) => spec_block_wf(b),
        None => true,
    }
}

/// The body's nesting depth, starting from one level of indentation,
/// stays within the machine's index range.
pub open spec fn spec_fn_depth_ok(f: Function) -> bool {
    match f.body {
        Some(b) => 1 + spec_block_depth(b) <= usize::MAX,
        None => true,
    }
}

/// Emits one rendered struct field line.
pub fn emit_struct_field(buffer: &mut CodeBuffer, field: &StructField)
    requires
        spec_c_renderable(field.ty),
    ensures
        final(buffer)@ == old(buffer)@.push(spec_struct_field_line(*field)),
{
    let mut line = String::from_str("    ");
    let ty = type_to_c(&field.ty);
    line.append(ty.as_str());
    line.append(" ");
    line.append(field.name.as_str());
    line.append(";");
    buffer.push_line(line.as_str());
}

/// Emits a struct definition as a typedef.
pub fn emit_struct(buffer: &mut CodeBuffer, def: &StructDef) -> (r: Result<(), CodegenError>)
    requires
        spec_struct_wf(*def),
    ensures
        r is Ok,
        final(buffer)@ == old(buffer)@ + spec_struct_lines(*def),
{
    buffer.push_line("typedef struct {");
    let n = def.fields.len();
    let mut i: usize = 0;
    while i < n
        invariant
            i <= n,
            n == def.fields.len(),
            spec_struct_wf(*def),
            buffer@ == old(buffer)@ + seq!["typedef struct {"@] + def.fields@.take(i as int)
                .map_values(|f: StructField| spec_struct_field_line(f)),
        decreases n - i,
    {
        emit_struct_field(buffer, &def.fields[i]);
        proof {
            assert(def.fields@.take(i as int + 1).map_values(
                |f: StructField| spec_struct_field_line(f),
            ) =~= def.fields@.take(i as int).map_values(
                |f: StructField| spec_struct_field_line(f),
            ).push(spec_struct_field_line(def.fields@[i as int])));
            assert(buffer@ =~~= old(buffer)@ + seq!["typedef struct {"@] + def.fields@.take(
                i as int + 1,
            ).map_values(|f: StructField| spec_struct_field_line(f)));
        }
        i = i + 1;
    }
    let mut close = String::from_str("} ");
    close.append(def.name.as_str());
    close.append(";");
    buffer.push_line(close.as_str());
    buffer.push_line("");
    proof {
        assert(def.fields@.take(n as int) =~= def.fields@);
        assert(buffer@ =~~= old(buffer)@ + spec_struct_lines(*def));
    }
    Ok(())
}

/// Renders the parameter list of a function.  `fn_name` names the function
/// in any error raised.
pub fn format_params(params: &Vec<Param>, impl_target: Option<&str>, fn_name: &String) -> (r:
    Result<String, CodegenError>)
    requires
        forall|i: int|
            0 <= i < params@.len() ==> match #[trigger] params@[i] {
                Param::Typed { ty, .. } => spec_c_renderable(ty),
                Param::SelfParam => true,
            },
    ensures
        match spec_format_params(params@, spec_target_view(impl_target), *fn_name) {
            Ok(text) => r matches Ok(s) && s@ == text,
            Err(e) => r == Err::<String, CodegenError>(e),
        },
{
    let ghost tgt = spec_target_view(impl_target);
    let mut parts: Vec<String> = Vec::new();
    let mut self_seen = false;
    let n = params.len();
    let mut i: usize = 0;
    proof {
        assert(params@.skip(0) =~= params@);
        assert(parts.deep_view() =~= Seq::<Seq<char>>::empty());
    }
    while i < n
        invariant
            i <= n,
            n == params@.len(),
            forall|k: int|
                0 <= k < params@.len() ==> match #[trigger] params@[k] {
                    Param::Typed { ty, .. } => spec_c_renderable(ty),
                    Param::SelfParam => true,
                },
            tgt == spec_target_view(impl_target),
            impl_target is Some <==> tgt is Some,
            spec_params_fold(params@, tgt, *fn_name, Seq::empty(), false) == spec_params_fold(
                params@.skip(i as int),
                tgt,
                *fn_name,
                parts.deep_view(),
                self_seen,
            ),
        decreases n - i,
    {
        proof {
            assert(params@.skip(i as int).drop_first() =~= params@.skip(i as int + 1));
            assert(params@.skip(i as int)[0] == params@[i as int]);
        }
        match &params[i] {
            Param::SelfParam => {
                if self_seen {
                    return Err(CodegenError::MultipleSelfParams { name: fn_name.clone() });
                }
                match impl_target {
                    None => {
                        return Err(CodegenError::SelfParamOutsideImpl { name: fn_name.clone() });
                    },
                    Some(target) => {
                        let mut part = String::from_str(target);
                        part.append("* self");
                        let ghost before = parts.deep_view();
                        parts.push(part);
                        self_seen = true;
                        proof {
                            assert(parts.deep_view() =~= before.push(tgt->Some_0 + "* self"@));
                        }
                    },
                }
            },
            Param::Typed { name, ty } => {
                let mut part = type_to_c(ty);
                part.append(" ");
                part.append(name.as_str());
                let ghost before = parts.deep_view();
                parts.push(part);
                proof {
                    assert(parts.deep_view() =~= before.push(
                        spec_type_c(params@[i as int]->Typed_ty) + " "@
                            + params@[i as int]->Typed_name@,
                    ));
                }
            },
        }
        i = i + 1;
    }
    proof {
        assert(params@.skip(n as int) =~= Seq::<Param>::empty());
    }
    if parts.len() == 0 {
        Ok(String::from_str("void"))
    } else {
        let mut joined = String::new();
        let m = parts.len();
        let mut j: usize = 0;
        while j < m
            invariant
                j <= m,
                m == parts.len(),
                joined@ == spec_join_comma(parts.deep_view().take(j as int)),
            decreases m - j,
        {
            if j > 0 {
                joined.append(", ");
            }
            joined.append(parts[j].as_str());
            proof {
                assert(parts.deep_view().take(j as int + 1).drop_last() =~= parts.deep_view().take(
                    j as int,
                ));
                assert(parts.deep_view().take(j as int + 1).last() == parts.deep_view()[j as int]);
            }
            j = j + 1;
        }
        proof {
            assert(parts.deep_view().take(m as int) =~= parts.deep_view());
        }
        Ok(joined)
    }
}

/// Renders the full signature of a function, mangled with the impl target
/// when one is given.
pub fn function_signature(func: &Function, impl_target: Option<&str>) -> (r: Result<
    String,
    CodegenError,
>)
    requires
        match func.return_type {
            Some(t) => spec_c_renderable(t),
            None => true,
        },
        forall|i: int|
            0 <= i < func.params@.len() ==> match #[trigger] func.params@[i] {
                Param::Typed { ty, .. } => spec_c_renderable(ty),
                Param::SelfParam => true,
            },
    ensures
        match spec_function_signature(*func, spec_target_view(impl_target)) {
            Ok(text) => r matches Ok(s) && s@ == text,
            Err(e) => r == Err::<String, CodegenError>(e),
        },
{
    let return_type = match &func.return_type {
        Some(t) => type_to_c(t),
        None => String::from_str("void"),
    };
    let func_name = match impl_target {
        Some(target) => {
            let mut m = String::from_str(target);
            m.append("_");
            m.append(func.name.as_str());
            m
        },
        None => func.name.clone(),
    };
    let params = match format_params(&func.params, impl_target, &func.name) {
        Ok(p) => p,
        Err(e) => {
            return Err(e);
        },
    };
    let mut sig = return_type;
    sig.append(" ");
    sig.append(func_name.as_str());
    sig.append("(");
    sig.append(params.as_str());
    sig.append(")");
    Ok(sig)
}

/// Emits one function, as an `extern` declaration or with its body.
pub fn emit_function(buffer: &mut CodeBuffer, func: &Function, impl_target: Option<&str>) -> (r:
    Result<(), CodegenError>)
    requires
        spec_fn_wf(*func),
        spec_fn_depth_ok(*func),
    ensures
        match spec_emit_function(*func, spec_target_view(impl_target)) {
            Ok(lines) => r is Ok && final(buffer)@ == old(buffer)@ + lines,
            Err(e) => r == Err::<(), CodegenError>(e),
        },
{
    let signature = match function_signature(func, impl_target) {
        Ok(s) => s,
        Err(e) => {
            return Err(e);
        },
    };
    if func.is_extern {
        if func.body.is_some() {
            return Err(CodegenError::ExternFunctionWithBody { name: func.name.clone() });
        }
        let mut line = String::from_str("extern ");
        line.append(signature.as_str());
        line.append(";");
        buffer.push_line(line.as_str());
        buffer.push_line("");
        proof {
            assert(buffer@ =~~= old(buffer)@ + spec_emit_function(
                *func,
                spec_target_view(impl_target),
            )->Ok_0);
        }
        Ok(())
    } else {
        let body = match &func.body {
            Some(b) => b,
            None => {
                return Err(CodegenError::MissingFunctionBody { name: func.name.clone() });
            },
        };
        let mut opener = signature;
        opener.append(" {");
        buffer.push_line(opener.as_str());
        match emit_block(buffer, body, 1) {
            Ok(()) => {},
            Err(e) => {
                return Err(e);
            },
        }
        buffer.push_line("}");
        buffer.push_line("");
        proof {
            assert(buffer@ =~~= old(buffer)@ + spec_emit_function(
                *func,
                spec_target_view(impl_target),
            )->Ok_0);
        }
        Ok(())
    }
}

/// Emits every method of an impl block in order.
pub fn emit_impl(buffer: &mut CodeBuffer, block: &ImplBlock) -> (r: Result<(), CodegenError>)
    requires
        forall|i: int|
            0 <= i < block.methods@.len() ==> spec_fn_wf(#[trigger] block.methods@[i])
                && spec_fn_depth_ok(block.methods@[i]),
    ensures
        match spec_impl_methods(block.target, block.methods@) {
            Ok(lines) => r is Ok && final(buffer)@ == old(buffer)@ + lines,
            Err(e) => r == Err::<(), CodegenError>(e),
        },
{
    let n = block.methods.len();
    let mut i: usize = 0;
    let ghost mut done: Seq<Seq<char>> = Seq::empty();
    proof {
        assert(block.methods@.skip(0) =~= block.methods@);
        assert(Seq::<Seq<char>>::empty() + spec_impl_methods(
            block.target,
            block.methods@,
        )->Ok_0 =~= spec_impl_methods(block.target, block.methods@)->Ok_0);
    }
    while i < n
        invariant
            i <= n,
            n == block.methods@.len(),
            forall|k: int|
                0 <= k < block.methods@.len() ==> spec_fn_wf(#[trigger] block.methods@[k])
                    && spec_fn_depth_ok(block.methods@[k]),
            buffer@ == old(buffer)@ + done,
            spec_impl_methods(block.target, block.methods@) == (match spec_impl_methods(
                block.target,
                block.methods@.skip(i as int),
            ) {
                Ok(rest) => Ok::<Seq<Seq<char>>, CodegenError>(done + rest),
                Err(e) => Err(e),
            }),
        decreases n - i,
    {
        proof {
            assert(block.methods@.skip(i as int).drop_first() =~= block.methods@.skip(i as int + 1));
            assert(block.methods@.skip(i as int)[0] == block.methods@[i as int]);
        }
        let method = &block.methods[i];
        let ghost before = done;
        if method.is_extern {
            return Err(CodegenError::ExternImplMethod {
                target: block.target.clone(),
                name: method.name.clone(),
            });
        }
        match emit_function(buffer, method, Some(block.target.as_str())) {
            Ok(()) => {},
            Err(e) => {
                return Err(e);
            },
        }
        proof {
            let lines = spec_emit_function(block.methods@[i as int], Some(block.target@))->Ok_0;
            done = before + lines;
            assert(buffer@ =~~= old(buffer)@ + done);
            match spec_impl_methods(block.target, block.methods@.skip(i as int + 1)) {
                Ok(rest) => {
                    assert(before + (lines + rest) =~= done + rest);
                },
                Err(_) => {},
            }
        }
        i = i + 1;
    }
    proof {
        assert(block.methods@.skip(n as int) =~= Seq::<Function>::empty());
    }
    Ok(())
}

} // verus!
