//! Building struct definitions, functions, and impl blocks from the parse
//! tree.
//!
//! A struct takes its name from its first child and its fields from the
//! last field-list child.  A function folds its children (the external
//! marker, name, parameter list, return type, body).  An impl block takes
//! its target name from its first child and builds every function child
//! as a method.  Every builder returns nothing exactly on trees that a
//! conformant grammar cannot produce.

use crate::ast::{
    block_view, function_view, funs_view, lemma_funs_view_push, opt_block_view, struct_def_view,
    Block, Function, FunctionView, ImplBlock, ImplBlockView, Param, StructDef, StructDefView,
    StructField, Type,
};
use crate::stmt_parser::{parse_block, spec_parse_block};
use crate::tree::{ParseNode, Rule};
use crate::utils::{parse_type, spec_parse_type};
use vstd::prelude::*;

verus! {

/// The field a struct-field node builds to: a name child and a type
/// child.
pub open spec fn spec_parse_struct_field(n: ParseNode) -> Option<StructField> {
    let c = n.children@;
    if c.len() >= 2 {
        match spec_parse_type(c[1]) {
            None => None,
            Some(ty) => Some(StructField { name: c[0].text, ty }),
        }
    } else {
        None
    }
}

/// The field-list fold: each field child in order.
pub open spec fn spec_fields_fold(c: Seq<ParseNode>, i: int, acc: Seq<StructField>) -> Option<
    Seq<StructField>,
>
    decreases c.len() - i,
{
    if i < 0 || i >= c.len() {
        Some(acc)
    } else {
        match spec_parse_struct_field(c[i]) {
            None => None,
            Some(f) => spec_fields_fold(c, i + 1, acc.push(f)),
        }
    }
}

/// The struct scan: keeps the fields of the last field-list child seen.
pub open spec fn spec_struct_scan(c: Seq<ParseNode>, i: int, fields: Seq<StructField>) -> Option<
    Seq<StructField>,
>
    decreases c.len() - i,
{
    if i < 0 || i >= c.len() {
        Some(fields)
    } else if c[i].rule == Rule::StructFields {
        match spec_fields_fold(c[i].children@, 0, Seq::empty()) {
            None => None,
            Some(fs) => spec_struct_scan(c, i + 1, fs),
        }
    } else {
        spec_struct_scan(c, i + 1, fields)
    }
}

/// The struct view a node builds to: its name from the first child, its
/// fields from the last field-list child.
pub open spec fn spec_parse_struct(n: ParseNode) -> Option<StructDefView> {
    let c = n.children@;
    if c.len() < 1 {
        None
    } else {
        match spec_struct_scan(c, 1, Seq::empty()) {
            None => None,
            Some(fs) => Some(StructDefView { name: c[0].text, fields: fs }),
        }
    }
}

/// The parameter a node builds to: the self parameter, or a named, typed
/// parameter; a wrapper delegates to its first child.
pub open spec fn spec_parse_param(n: ParseNode) -> Option<Param>
    decreases n,
{
    match n.rule {
        Rule::ParamRule => {
            if n.children@.len() >= 1 {
                spec_parse_param(n.children@[0])
            } else {
                None
            }
        },
        Rule::ParamSelf => Some(Param::SelfParam),
        Rule::ParamTyped => spec_parse_typed_param(n),
        _ => None,
    }
}

/// The typed parameter a node builds to: a name child and a type child.
pub open spec fn spec_parse_typed_param(n: ParseNode) -> Option<Param> {
    let c = n.children@;
    if c.len() >= 2 {
        match spec_parse_type(c[1]) {
            None => None,
            Some(ty) => Some(Param::Typed { name: c[0].text, ty }),
        }
    } else {
        None
    }
}

/// The parameter-list fold: each parameter child in order.
pub open spec fn spec_params_fold(c: Seq<ParseNode>, i: int, acc: Seq<Param>) -> Option<Seq<Param>>
    decreases c.len() - i,
{
    if i < 0 || i >= c.len() {
        Some(acc)
    } else {
        match spec_parse_param(c[i]) {
            None => None,
            Some(p) => spec_params_fold(c, i + 1, acc.push(p)),
        }
    }
}

/// The function fold: walks the children in order, keeping the last
/// external marker, name, parameter list, return type, and body seen.  A
/// function without a name child yields nothing.
pub open spec fn spec_fun_fold(
    c: Seq<ParseNode>,
    i: int,
    name: Option<String>,
    params: Seq<Param>,
    return_type: Option<Type>,
    body: Option<Seq<crate::ast::StatementView>>,
    is_extern: bool,
) -> Option<FunctionView>
    decreases c.len() - i,
{
    if i < 0 || i >= c.len() {
        match name {
            Some(nm) => Some(
                FunctionView { name: nm, params, return_type, body, is_extern },
            ),
            None => None,
        }
    } else {
        match c[i].rule {
            Rule::ExternModifier => spec_fun_fold(c, i + 1, name, params, return_type, body, true),
            Rule::Ident => spec_fun_fold(
                c,
                i + 1,
                Some(c[i].text),
                params,
                return_type,
                body,
                is_extern,
            ),
            Rule::ParameterList => match spec_params_fold(c[i].children@, 0, Seq::empty()) {
                None => None,
                Some(ps) => spec_fun_fold(c, i + 1, name, ps, return_type, body, is_extern),
            },
            Rule::ReturnType => {
                if c[i].children@.len() >= 1 {
                    match spec_parse_type(c[i].children@[0]) {
                        None => None,
                        Some(t) => spec_fun_fold(c, i + 1, name, params, Some(t), body, is_extern),
                    }
                } else {
                    None
                }
            },
            Rule::FunctionBody => {
                if c[i].children@.len() >= 1 && c[i].children@[0].rule == Rule::BlockRule {
                    match spec_parse_block(c[i].children@[0]) {
                        None => None,
                        Some(bv) => spec_fun_fold(
                            c,
                            i + 1,
                            name,
                            params,
                            return_type,
                            Some(bv),
                            is_extern,
                        ),
                    }
                } else {
                    spec_fun_fold(c, i + 1, name, params, return_type, body, is_extern)
                }
            },
            _ => spec_fun_fold(c, i + 1, name, params, return_type, body, is_extern),
        }
    }
}

/// The function view a node builds to.
pub open spec fn spec_parse_function(n: ParseNode) -> Option<FunctionView> {
    spec_fun_fold(n.children@, 0, None, Seq::empty(), None, None, false)
}

/// The impl fold: builds every function child as a method, in order.
pub open spec fn spec_impl_fold(
    c: Seq<ParseNode>,
    i: int,
    target: String,
    methods: Seq<FunctionView>,
) -> Option<ImplBlockView>
    decreases c.len() - i,
{
    if i < 0 || i >= c.len() {
        Some(ImplBlockView { target, methods })
    } else if c[i].rule == Rule::FunctionDef {
        match spec_parse_function(c[i]) {
            None => None,
            Some(fv) => spec_impl_fold(c, i + 1, target, methods.push(fv)),
        }
    } else {
        spec_impl_fold(c, i + 1, target, methods)
    }
}

/// The impl view a node builds to: its target name from the first child,
/// its methods from the function children.
pub open spec fn spec_parse_impl(n: ParseNode) -> Option<ImplBlockView> {
    let c = n.children@;
    if c.len() < 1 {
        None
    } else {
        spec_impl_fold(c, 1, c[0].text, Seq::empty())
    }
}

/// Builds a single struct field from a grammar node.
fn parse_struct_field(pair: &ParseNode) -> (r: Option<StructField>)
    ensures
        r == spec_parse_struct_field(*pair),
{
    if pair.children.len() < 2 {
        return None;
    }
    match parse_type(&pair.children[1]) {
        None => None,
        Some(ty) => Some(StructField { name: pair.children[0].text.clone(), ty }),
    }
}

/// Builds the fields of a field-list node, in order.
#[verifier::loop_isolation(false)]
fn parse_fields_list(pair: &ParseNode) -> (r: Option<Vec<StructField>>)
    ensures
        match r {
            Some(v) => spec_fields_fold(pair.children@, 0, Seq::empty()) == Some(v@),
            None => spec_fields_fold(pair.children@, 0, Seq::empty()) is None,
        },
{
    let c = &pair.children;
    let n = c.len();
    let mut fields: Vec<StructField> = Vec::new();
    let mut i: usize = 0;
    proof {
        assert(fields@ =~= Seq::<StructField>::empty());
    }
    while i < n
        invariant
            i <= n,
            spec_fields_fold(c@, i as int, fields@) == spec_fields_fold(c@, 0, Seq::empty()),
        decreases n - i,
    {
        let f = match parse_struct_field(&c[i]) {
            None => {
                return None;
            },
            Some(f) => f,
        };
        fields.push(f);
        i = i + 1;
    }
    Some(fields)
}

/// Builds a struct definition from a grammar node.
#[verifier::loop_isolation(false)]
pub fn parse_struct(pair: &ParseNode) -> (r: Option<StructDef>)
    ensures
        match r {
            Some(def) => spec_parse_struct(*pair) == Some(struct_def_view(def)),
            None => spec_parse_struct(*pair) is None,
        },
{
    if pair.children.len() < 1 {
        return None;
    }
    let name = pair.children[0].text.clone();
    let c = &pair.children;
    let n = c.len();
    let mut fields: Vec<StructField> = Vec::new();
    let mut i: usize = 1;
    proof {
        assert(fields@ =~= Seq::<StructField>::empty());
    }
    while i < n
        invariant
            1 <= i <= n,
            spec_struct_scan(c@, i as int, fields@) == spec_struct_scan(c@, 1, Seq::empty()),
        decreases n - i,
    {
        let is_fields = match c[i].rule {
            Rule::StructFields => true,
            _ => false,
        };
        if is_fields {
            match parse_fields_list(&c[i]) {
                None => {
                    return None;
                },
                Some(fs) => {
                    fields = fs;
                },
            }
        }
        i = i + 1;
    }
    Some(StructDef { name, fields })
}

/// Builds a function parameter from a grammar node.
pub fn parse_param(pair: &ParseNode) -> (r: Option<Param>)
    ensures
        r == spec_parse_param(*pair),
    decreases *pair,
{
    match pair.rule {
        Rule::ParamRule => {
            if pair.children.len() >= 1 {
                parse_param(&pair.children[0])
            } else {
                None
            }
        },
        Rule::ParamSelf => Some(Param::SelfParam),
        Rule::ParamTyped => parse_typed_param(pair),
        _ => None,
    }
}

/// Builds a typed parameter from a grammar node.
pub fn parse_typed_param(pair: &ParseNode) -> (r: Option<Param>)
    ensures
        r == spec_parse_typed_param(*pair),
{
    if pair.children.len() < 2 {
        return None;
    }
    match parse_type(&pair.children[1]) {
        None => None,
        Some(ty) => Some(Param::Typed { name: pair.children[0].text.clone(), ty }),
    }
}

/// Builds the parameters of a parameter-list node, in order.
#[verifier::loop_isolation(false)]
fn parse_params_list(pair: &ParseNode) -> (r: Option<Vec<Param>>)
    ensures
        match r {
            Some(v) => spec_params_fold(pair.children@, 0, Seq::empty()) == Some(v@),
            None => spec_params_fold(pair.children@, 0, Seq::empty()) is None,
        },
{
    let c = &pair.children;
    let n = c.len();
    let mut params: Vec<Param> = Vec::new();
    let mut i: usize = 0;
    proof {
        assert(params@ =~= Seq::<Param>::empty());
    }
    while i < n
        invariant
            i <= n,
            spec_params_fold(c@, i as int, params@) == spec_params_fold(c@, 0, Seq::empty()),
        decreases n - i,
    {
        let p = match parse_param(&c[i]) {
            None => {
                return None;
            },
            Some(p) => p,
        };
        params.push(p);
        i = i + 1;
    }
    Some(params)
}

/// Builds a function definition or declaration from a grammar node.
#[verifier::loop_isolation(false)]
pub fn parse_function(pair: &ParseNode) -> (r: Option<Function>)
    ensures
        match r {
            Some(f) => spec_parse_function(*pair) == Some(function_view(f)),
            None => spec_parse_function(*pair) is None,
        },
{
    let c = &pair.children;
    let n = c.len();
    let mut name: Option<String> = None;
    let mut params: Vec<Param> = Vec::new();
    let mut return_type: Option<Type> = None;
    let mut body: Option<Block> = None;
    let mut is_extern = false;
    let mut i: usize = 0;
    proof {
        assert(params@ =~= Seq::<Param>::empty());
    }
    while i < n
        invariant
            i <= n,
            spec_fun_fold(
                c@,
                i as int,
                name,
                params@,
                return_type,
                opt_block_view(body),
                is_extern,
            ) == spec_parse_function(*pair),
        decreases n - i,
    {
        let part = &c[i];
        match part.rule {
            Rule::ExternModifier => {
                is_extern = true;
            },
            Rule::Ident => {
                name = Some(part.text.clone());
            },
            Rule::ParameterList => {
                match parse_params_list(part) {
                    None => {
                        return None;
                    },
                    Some(ps) => {
                        params = ps;
                    },
                }
            },
            Rule::ReturnType => {
                if part.children.len() < 1 {
                    return None;
                }
                match parse_type(&part.children[0]) {
                    None => {
                        return None;
                    },
                    Some(t) => {
                        return_type = Some(t);
                    },
                }
            },
            Rule::FunctionBody => {
                if part.children.len() >= 1 {
                    let is_block = match part.children[0].rule {
                        Rule::BlockRule => true,
                        _ => false,
                    };
                    if is_block {
                        match parse_block(&part.children[0]) {
                            None => {
                                return None;
                            },
                            Some(b) => {
                                body = Some(b);
                            },
                        }
                    }
                }
            },
            _ => {},
        }
        i = i + 1;
    }
    let nm = match name {
        Some(nm) => nm,
        None => {
            return None;
        },
    };
    let result = Function { name: nm, params, return_type, body, is_extern };
    proof {
        assert(function_view(result) =~~= spec_parse_function(*pair)->Some_0);
    }
    Some(result)
}

/// Builds an impl block from a grammar node.
#[verifier::loop_isolation(false)]
pub fn parse_impl(pair: &ParseNode) -> (r: Option<ImplBlock>)
    ensures
        match r {
            Some(ib) => spec_parse_impl(*pair) == Some(crate::ast::impl_block_view(ib)),
            None => spec_parse_impl(*pair) is None,
        },
{
    if pair.children.len() < 1 {
        return None;
    }
    let target = pair.children[0].text.clone();
    let c = &pair.children;
    let n = c.len();
    let mut methods: Vec<Function> = Vec::new();
    let mut i: usize = 1;
    proof {
        assert(funs_view(methods@) =~= Seq::<FunctionView>::empty());
    }
    while i < n
        invariant
            1 <= i <= n,
            spec_impl_fold(c@, i as int, c@[0].text, funs_view(methods@)) == spec_impl_fold(
                c@,
                1,
                c@[0].text,
                Seq::empty(),
            ),
        decreases n - i,
    {
        let is_fn = match c[i].rule {
            Rule::FunctionDef => true,
            _ => false,
        };
        if is_fn {
            let f = match parse_function(&c[i]) {
                None => {
                    return None;
                },
                Some(f) => f,
            };
            proof {
                lemma_funs_view_push(methods@, f);
            }
            methods.push(f);
        }
        i = i + 1;
    }
    let result = ImplBlock { target, methods };
    proof {
        assert(crate::ast::impl_block_view(result) =~~= spec_parse_impl(*pair)->Some_0);
    }
    Some(result)
}

} // verus!
