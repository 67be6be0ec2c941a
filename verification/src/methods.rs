//! Declaration codegen for one method: depending on the method flavor in the
//! context it emits a capability-trait stub, a dispatch-table field, a static
//! table entry, an event variant, an event payload struct, a native
//! trampoline, the bridge's push method, or an outbound wrapper method — all
//! from the same declaration, re-traversing its parameters once per needed
//! parameter flavor.

use crate::config::{
    clone_configs, HandlerConfigs, LifetimeMark, MethodFlavor, ParameterFlavor,
};
use crate::errors::GenError;
use crate::model::{MethodChild, MethodDecl, RecordChild};
use crate::names::{
    camel_of, enum_ident, enum_ident_view, method_ident, method_ident_view, replace_id,
    replace_id_view, to_camel_case,
};
use crate::params::{handle_function_parameter, spec_parameter_lines, with_flag};
use crate::text::{
    cat2, cat3, cat5, cat6, cat7, contains_seq, contains_str, line_views, str_ends_with,
    str_eq, str_starts_with,
};
use vstd::prelude::*;
use vstd::string::StrSliceExecFns;
use vstd::string::StringExecFns;

verus! {

/// How many parameter children stand among the first `i` children.
pub open spec fn params_before(children: Seq<MethodChild>, i: int) -> int
    decreases i,
{
    if i <= 0 {
        0
    } else {
        params_before(children, i - 1) + if children[i - 1] is Param {
            1int
        } else {
            0int
        }
    }
}

pub proof fn lemma_params_before_bound(children: Seq<MethodChild>, i: int)
    requires
        0 <= i <= children.len(),
    ensures
        0 <= params_before(children, i) <= i,
    decreases i,
{
    if i > 0 {
        lemma_params_before_bound(children, i - 1);
    }
}

/// Counts the parameter children of a method: the same-handler sibling count
/// that overload-aware separators use.
pub fn count_param_children(children: &Vec<MethodChild>) -> (r: usize)
    ensures
        r == params_before(children@, children@.len() as int),
{
    let mut count: usize = 0;
    let mut i: usize = 0;
    while i < children.len()
        invariant
            i <= children@.len(),
            count == params_before(children@, i as int),
            count <= i,
        decreases children@.len() - i,
    {
        match &children[i] {
            MethodChild::Param(_) => {
                count = count + 1;
            },
            MethodChild::Other { .. } => {},
        }
        i = i + 1;
    }
    count
}

/// The parameter pass: visits every parameter child of a method in order,
/// with the sibling count and index recomputed for each, collecting the
/// emitted fragments and threading the configuration (with its bottom-up
/// lifetime flag) through the visits.
pub open spec fn spec_params_pass(
    children: Seq<MethodChild>,
    i: int,
    cfg: HandlerConfigs,
) -> Result<(Seq<Seq<char>>, HandlerConfigs), GenError>
    decreases children.len() - i,
{
    if i < 0 || i >= children.len() {
        Ok((Seq::empty(), cfg))
    } else {
        match children[i] {
            MethodChild::Other { .. } => spec_params_pass(children, i + 1, cfg),
            MethodChild::Param(p) => {
                let cfg1 = HandlerConfigs {
                    num_parent_children_same_handler: params_before(
                        children,
                        children.len() as int,
                    ) as usize,
                    index: params_before(children, i) as usize,
                    ..cfg
                };
                match spec_parameter_lines(p, cfg1) {
                    Err(e) => Err(e),
                    Ok((ls, lifetime)) => {
                        match spec_params_pass(children, i + 1, with_flag(cfg1, lifetime)) {
                            Err(e) => Err(e),
                            Ok((rest, cfg2)) => Ok((ls + rest, cfg2)),
                        }
                    },
                }
            },
        }
    }
}

/// How many parameter children stand before position `pos`.
fn count_param_children_before(children: &Vec<MethodChild>, pos: usize) -> (r: usize)
    requires
        pos <= children@.len(),
    ensures
        r == params_before(children@, pos as int),
{
    let mut count: usize = 0;
    let mut i: usize = 0;
    while i < pos
        invariant
            i <= pos <= children@.len(),
            count == params_before(children@, i as int),
            count <= i,
        decreases pos - i,
    {
        match &children[i] {
            MethodChild::Param(_) => {
                count = count + 1;
            },
            MethodChild::Other { .. } => {},
        }
        i = i + 1;
    }
    count
}

/// The parameter pass from position `i` on, as `spec_params_pass` states it.
fn params_pass_from(children: &Vec<MethodChild>, i: usize, cfg: &mut HandlerConfigs) -> (r: Result<
    Vec<String>,
    GenError,
>)
    requires
        i <= children@.len(),
    ensures
        ({
            let sp = spec_params_pass(children@, i as int, *old(cfg));
            match r {
                Ok(v) => sp matches Ok(o) && line_views(v@) == o.0 && *final(cfg) == o.1,
                Err(e) => sp == Err::<(Seq<Seq<char>>, HandlerConfigs), GenError>(e),
            }
        }),
    decreases children@.len() - i,
{
    if i == children.len() {
        let r: Vec<String> = Vec::new();
        proof {
            assert(line_views(r@) =~= Seq::<Seq<char>>::empty());
        }
        return Ok(r);
    }
    match &children[i] {
        MethodChild::Other { .. } => params_pass_from(children, i + 1, cfg),
        MethodChild::Param(p) => {
            let ghost cfg_head = *cfg;
            let total = count_param_children(children);
            let before = count_param_children_before(children, i);
            cfg.num_parent_children_same_handler = total;
            cfg.index = before;
            let ghost cfg1 = *cfg;
            proof {
                lemma_params_before_bound(children@, i as int);
                lemma_params_before_bound(children@, children@.len() as int);
                assert(cfg1 == (HandlerConfigs {
                    num_parent_children_same_handler: params_before(
                        children@,
                        children@.len() as int,
                    ) as usize,
                    index: params_before(children@, i as int) as usize,
                    ..cfg_head
                }));
            }
            match handle_function_parameter(p, cfg) {
                Err(e) => {
                    proof {
                        assert(spec_params_pass(children@, i as int, cfg_head) == Err::<
                            (Seq<Seq<char>>, HandlerConfigs),
                            GenError,
                        >(e));
                    }
                    Err(e)
                },
                Ok(mut v) => {
                    let ghost flag = spec_parameter_lines(*p, cfg1)->Ok_0.1;
                    proof {
                        assert(*cfg == with_flag(cfg1, flag));
                    }
                    match params_pass_from(children, i + 1, cfg) {
                        Err(e) => {
                            proof {
                                assert(spec_params_pass(children@, i as int, cfg_head) == Err::<
                                    (Seq<Seq<char>>, HandlerConfigs),
                                    GenError,
                                >(e));
                            }
                            Err(e)
                        },
                        Ok(mut rest) => {
                            proof {
                                crate::text::lemma_line_views_app(v@, rest@);
                            }
                            v.append(&mut rest);
                            Ok(v)
                        },
                    }
                },
            }
        },
    }
}

/// Visits the parameter children of a method under the parameter flavor held
/// in the configuration, collecting their fragments in declaration order.
pub fn process_method_children(m: &MethodDecl, cfg: &mut HandlerConfigs) -> (r: Result<
    Vec<String>,
    GenError,
>)
    ensures
        ({
            let sp = spec_params_pass(m.children@, 0, *old(cfg));
            match r {
                Ok(v) => sp matches Ok(o) && line_views(v@) == o.0 && *final(cfg) == o.1,
                Err(e) => sp == Err::<(Seq<Seq<char>>, HandlerConfigs), GenError>(e),
            }
        }),
{
    params_pass_from(&m.children, 0, cfg)
}

/// How many earlier same-kind siblings share a method's name: the number that
/// the overload suffix appends.
pub open spec fn spec_prior_count(siblings: Seq<RecordChild>, name: Seq<char>, p: int) -> int
    decreases p,
{
    if p <= 0 {
        0
    } else {
        spec_prior_count(siblings, name, p - 1) + match siblings[p - 1] {
            RecordChild::Method(mm) => if mm.name@ == name {
                1int
            } else {
                0int
            },
            RecordChild::Other { .. } => 0int,
        }
    }
}

pub proof fn lemma_prior_count_bound(siblings: Seq<RecordChild>, name: Seq<char>, p: int)
    requires
        0 <= p <= siblings.len(),
    ensures
        0 <= spec_prior_count(siblings, name, p) <= p,
    decreases p,
{
    if p > 0 {
        lemma_prior_count_bound(siblings, name, p - 1);
    }
}

/// Counts the earlier same-kind siblings sharing the name of the method at
/// `pos`, so that overload siblings receive distinct, regeneration-stable
/// numeric suffixes: the first occurrence unsuffixed, later ones numbered by
/// this count.
pub fn find_previous_sibling_index(siblings: &Vec<RecordChild>, pos: usize) -> (r: usize)
    requires
        pos < siblings@.len(),
        siblings@[pos as int] is Method,
    ensures
        r == spec_prior_count(siblings@, siblings@[pos as int]->Method_0.name@, pos as int),
{
    let name = match &siblings[pos] {
        RecordChild::Method(m) => m.name.as_str(),
        RecordChild::Other { kind } => kind.as_str(),
    };
    let mut count: usize = 0;
    let mut i: usize = 0;
    while i < pos
        invariant
            i <= pos < siblings@.len(),
            siblings@[pos as int] is Method,
            name@ == siblings@[pos as int]->Method_0.name@,
            count == spec_prior_count(siblings@, name@, i as int),
            count <= i,
        decreases pos - i,
    {
        match &siblings[i] {
            RecordChild::Method(m) => {
                if str_eq(m.name.as_str(), name) {
                    count = count + 1;
                }
            },
            RecordChild::Other { .. } => {},
        }
        i = i + 1;
    }
    count
}

/// A configuration specialized for one child pass: the parameter flavor the
/// pass asks for.
pub open spec fn cfg_param(cfg: HandlerConfigs, pf: ParameterFlavor) -> HandlerConfigs {
    HandlerConfigs { parameter_flavor: pf, ..cfg }
}

/// A child-pass configuration that also carries a lifetime marker.
pub open spec fn cfg_param_lt(
    cfg: HandlerConfigs,
    pf: ParameterFlavor,
    lt: LifetimeMark,
) -> HandlerConfigs {
    HandlerConfigs { parameter_flavor: pf, life_time: lt, ..cfg }
}

/// A child-pass configuration for trampoline parameters: raw pointers
/// preferred over borrows.
pub open spec fn cfg_param_pp(cfg: HandlerConfigs, pf: ParameterFlavor) -> HandlerConfigs {
    HandlerConfigs { parameter_flavor: pf, prefer_pointer: true, ..cfg }
}

/// The comma-space separator owed between `&mut self` (or the fixed first
/// argument) and a non-empty parameter list.
pub open spec fn sep_if(ps: Seq<Seq<char>>) -> Seq<Seq<char>> {
    if ps.len() > 0 {
        seq![", "@]
    } else {
        Seq::empty()
    }
}

/// The generated result type of an outbound wrapper, from the display name of
/// the native result type.
pub open spec fn spec_rs_result_type(c: Seq<char>) -> Seq<char> {
    if c == "void"@ {
        "()"@
    } else if c == "int"@ {
        "std::os::raw::c_int"@
    } else if c == "bool"@ {
        "bool"@
    } else if c == "const char *"@ {
        "*const std::os::raw::c_char"@
    } else if c == "YDQueryResult<char> *"@ {
        "*const YDQueryResult"@
    } else if c.len() >= 8 && c.subrange(0, 6) == "const "@ && c.subrange(
        c.len() - 2,
        c.len() as int,
    ) == " *"@ {
        "*const "@ + c.subrange(6, c.len() - 2)
    } else {
        "/** "@ + c + " */"@
    }
}

/// Maps a native result-type display name to the generated result type.
pub fn get_rs_result_type_from_c_result_type(c_result_type: &str) -> (r: String)
    ensures
        r@ == spec_rs_result_type(c_result_type@),
{
    proof {
        reveal_strlit("const ");
        reveal_strlit(" *");
    }
    if str_eq(c_result_type, "void") {
        String::from_str("()")
    } else if str_eq(c_result_type, "int") {
        String::from_str("std::os::raw::c_int")
    } else if str_eq(c_result_type, "bool") {
        String::from_str("bool")
    } else if str_eq(c_result_type, "const char *") {
        String::from_str("*const std::os::raw::c_char")
    } else if str_eq(c_result_type, "YDQueryResult<char> *") {
        String::from_str("*const YDQueryResult")
    } else {
        let n = c_result_type.unicode_len();
        if n >= 8 && str_starts_with(c_result_type, "const ") && str_ends_with(
            c_result_type,
            " *",
        ) {
            let mid = c_result_type.substring_char(6, n - 2);
            cat2("*const ", mid)
        } else {
            cat3("/** ", c_result_type, " */")
        }
    }
}

/// What one method contributes under each method flavor. The parameter
/// children are re-traversed once per needed parameter flavor; the Rust-style
/// pass always runs first, so an unmappable parameter aborts every flavor
/// with the same diagnostic. Only the event passes touch the inherited
/// configuration: they clear the bottom-up lifetime flag after reading it.
pub open spec fn spec_prototype(
    m: MethodDecl,
    siblings: Seq<RecordChild>,
    pos: int,
    cfg: HandlerConfigs,
) -> Result<(Seq<Seq<char>>, HandlerConfigs), GenError> {
    let prior = spec_prior_count(siblings, m.name@, pos) as nat;
    let snake = method_ident_view(m.name@, prior);
    let enumn = enum_ident_view(m.name@, prior);
    let packet = cfg.record_name@ + enumn;
    match spec_params_pass(m.children@, 0, cfg_param(cfg, ParameterFlavor::Rust)) {
        Err(e) => Err(e),
        Ok((crs, _)) => match cfg.method_flavor {
            MethodFlavor::SpiTrait => {
                match spec_params_pass(
                    m.children@,
                    0,
                    cfg_param_lt(cfg, ParameterFlavor::Rust, LifetimeMark::BorrowedA),
                ) {
                    Err(e) => Err(e),
                    Ok((ps, _)) => Ok(
                        (
                            seq!["    fn "@ + snake + "(&mut self"@] + sep_if(ps) + ps + seq![
                                ") {}\n"@,
                            ],
                            cfg,
                        ),
                    ),
                }
            },
            MethodFlavor::ApiTrait => {
                if m.name@.len() > 0 && m.name@[0] == '~' {
                    Ok((Seq::empty(), cfg))
                } else if m.name@ == "start"@ {
                    Ok(
                        (
                            seq![
                                "\n    pub fn start(&mut self, p_listener: *const dyn YDListenerTrait) -> bool {\n        let p_listener = Box::into_raw(Box::new((&YD_LISTENER_VTABLE, p_listener)));\n        unsafe {\n            ((*(*self).vtable_).YDApi_start)(self as *mut YDApi, p_listener as *mut YDListener)\n        }\n    }\n"@,
                            ],
                            cfg,
                        ),
                    )
                } else if contains_seq(m.name@, "Multi"@) {
                    Ok(
                        (
                            seq!["    // "@ + snake + " // Ignored (MethodFlavor::ApiTrait)\n"@],
                            cfg,
                        ),
                    )
                } else {
                    let camel = replace_id_view(camel_of(snake));
                    let rust_result = spec_rs_result_type(m.result_type@);
                    let full_api = cfg.record_name@ + "_"@ + camel;
                    match spec_params_pass(
                        m.children@,
                        0,
                        cfg_param(cfg, ParameterFlavor::MethodCallParam),
                    ) {
                        Err(e) => Err(e),
                        Ok((mcp, _)) => Ok(
                            (
                                seq!["    pub fn "@ + snake + "(&mut self"@] + sep_if(crs) + crs
                                    + seq![
                                    ") -> "@ + rust_result
                                        + " {\n        unsafe {\n            ((*(*self).vtable_)."@
                                        + full_api + ")(self as *mut "@ + cfg.record_name@,
                                ] + sep_if(mcp) + mcp + seq![")\n        }\n    }\n"@],
                                cfg,
                            ),
                        ),
                    }
                }
            },
            MethodFlavor::VTableStruct => {
                match spec_params_pass(
                    m.children@,
                    0,
                    cfg_param_pp(cfg, ParameterFlavor::Rust),
                ) {
                    Err(e) => Err(e),
                    Ok((ps, _)) => Ok(
                        (
                            seq![
                                "    "@ + snake + ": extern \"C\" fn(spi: *mut "@
                                    + cfg.record_name@ + "Fat"@,
                            ] + sep_if(ps) + ps + seq!["),\n"@],
                            cfg,
                        ),
                    ),
                }
            },
            MethodFlavor::StaticTable => Ok(
                (seq!["    "@ + snake + ": spi_"@ + snake + ",\n"@], cfg),
            ),
            MethodFlavor::OutputEnum => {
                match spec_params_pass(
                    m.children@,
                    0,
                    cfg_param(cfg, ParameterFlavor::RustStruct),
                ) {
                    Err(e) => Err(e),
                    Ok((_, pcfg)) => {
                        let ltp = if pcfg.life_time_on_children {
                            "<'a>"@
                        } else {
                            ""@
                        };
                        Ok(
                            (
                                seq!["    "@ + enumn + "("@ + packet + "Packet"@ + ltp + "),\n"@],
                                HandlerConfigs { life_time_on_children: false, ..cfg },
                            ),
                        )
                    },
                }
            },
            MethodFlavor::OutputEnumStruct => {
                match spec_params_pass(
                    m.children@,
                    0,
                    cfg_param_lt(cfg, ParameterFlavor::RustStruct, LifetimeMark::BorrowedA),
                ) {
                    Err(e) => Err(e),
                    Ok((ps, pcfg)) => {
                        let ltp = if pcfg.life_time_on_children {
                            "<'a>"@
                        } else {
                            ""@
                        };
                        Ok(
                            (
                                seq![
                                    "\n#[allow(unused_lifetimes)]\n#[derive(Clone)]\npub struct "@
                                        + packet + "Packet"@ + ltp + " {\n"@,
                                ] + ps + seq!["\n}\n"@],
                                HandlerConfigs { life_time_on_children: false, ..cfg },
                            ),
                        )
                    },
                }
            },
            MethodFlavor::CFn => {
                match spec_params_pass(
                    m.children@,
                    0,
                    cfg_param_pp(cfg, ParameterFlavor::Rust),
                ) {
                    Err(e) => Err(e),
                    Ok((ps, _)) => {
                        match spec_params_pass(
                            m.children@,
                            0,
                            cfg_param(cfg, ParameterFlavor::UnsafeCheck),
                        ) {
                            Err(e) => Err(e),
                            Ok((uc, _)) => {
                                match spec_params_pass(
                                    m.children@,
                                    0,
                                    cfg_param_pp(cfg, ParameterFlavor::MethodCallParam),
                                ) {
                                    Err(e) => Err(e),
                                    Ok((mcp, _)) => Ok(
                                        (
                                            seq![
                                                "\nextern \"C\" fn spi_"@ + snake
                                                    + "(spi: *mut "@ + cfg.record_name@ + "Fat"@,
                                            ] + sep_if(ps) + ps + seq![
                                                ") {\n    unsafe {\n        assert!(!spi.is_null());\n"@,
                                            ] + uc + seq![
                                                "\n        (*(*spi).md_spi_ptr)."@ + snake + "("@,
                                            ] + mcp + seq![")\n    }\n}\n"@],
                                            cfg,
                                        ),
                                    ),
                                }
                            },
                        }
                    },
                }
            },
            MethodFlavor::SpiFn => {
                match spec_params_pass(
                    m.children@,
                    0,
                    cfg_param_lt(cfg, ParameterFlavor::Rust, LifetimeMark::BorrowedA),
                ) {
                    Err(e) => Err(e),
                    Ok((ps, _)) => {
                        match spec_params_pass(
                            m.children@,
                            0,
                            cfg_param(cfg, ParameterFlavor::SpiFn),
                        ) {
                            Err(e) => Err(e),
                            Ok((sf, _)) => Ok(
                                (
                                    seq!["    fn "@ + snake + "(&mut self"@] + sep_if(ps) + ps
                                        + seq![
                                        ") {\n        self.inner.lock().unwrap().push("@,
                                        cfg.record_name@ + "Output::"@ + enumn + "("@ + packet
                                            + "Packet {\n"@,
                                    ] + sf + seq!["        }))\n    }\n"@],
                                    cfg,
                                ),
                            ),
                        }
                    },
                }
            },
            MethodFlavor::LogOnly => Ok(
                (seq!["// FunctionPrototype: "@ + m.name@ + "\n"@], cfg),
            ),
        },
    }
}

/// Runs one child pass over the parameters of `m`, from a copy of `cfg`
/// specialized to the given parameter flavor, lifetime marker and pointer
/// preference; hands back the fragments and the copy's final state.
fn child_pass(
    m: &MethodDecl,
    cfg: &HandlerConfigs,
    pf: ParameterFlavor,
    lt: Option<LifetimeMark>,
    prefer_pointer: bool,
) -> (r: Result<(Vec<String>, HandlerConfigs), GenError>)
    ensures
        ({
            let cfg1 = match lt {
                Some(l) => HandlerConfigs {
                    parameter_flavor: pf,
                    life_time: l,
                    prefer_pointer: prefer_pointer || cfg.prefer_pointer,
                    ..*cfg
                },
                None => HandlerConfigs {
                    parameter_flavor: pf,
                    prefer_pointer: prefer_pointer || cfg.prefer_pointer,
                    ..*cfg
                },
            };
            let sp = spec_params_pass(m.children@, 0, cfg1);
            match r {
                Ok((v, c)) => sp matches Ok(o) && line_views(v@) == o.0 && c == o.1,
                Err(e) => sp == Err::<(Seq<Seq<char>>, HandlerConfigs), GenError>(e),
            }
        }),
{
    let mut c = clone_configs(cfg);
    c.parameter_flavor = pf;
    if let Some(l) = lt {
        c.life_time = l;
    }
    if prefer_pointer {
        c.prefer_pointer = true;
    }
    match process_method_children(m, &mut c) {
        Err(e) => Err(e),
        Ok(v) => Ok((v, c)),
    }
}

/// Emits what one method contributes under the method flavor in the context.
/// `siblings` are the children of the owning record and `pos` this method's
/// position among them, from which the overload suffix is counted.
pub fn handle_function_prototype(
    m: &MethodDecl,
    siblings: &Vec<RecordChild>,
    pos: usize,
    cfg: &mut HandlerConfigs,
) -> (r: Result<Vec<String>, GenError>)
    requires
        pos < siblings@.len(),
        siblings@[pos as int] == RecordChild::Method(*m),
    ensures
        ({
            let sp = spec_prototype(*m, siblings@, pos as int, *old(cfg));
            match r {
                Ok(v) => sp matches Ok(o) && line_views(v@) == o.0 && *final(cfg) == o.1,
                Err(e) => sp == Err::<(Seq<Seq<char>>, HandlerConfigs), GenError>(e),
            }
        }),
{
    let ghost cfg_entry = *cfg;
    let sibling_index = find_previous_sibling_index(siblings, pos);
    proof {
        lemma_prior_count_bound(siblings@, m.name@, pos as int);
    }
    let ghost prior = spec_prior_count(siblings@, m.name@, pos as int) as nat;
    let snake_fn_name = method_ident(m.name.as_str(), sibling_index as u64);
    let enum_name = enum_ident(m.name.as_str(), sibling_index as u64);
    let packet_name_prefix = cat2(cfg.record_name.as_str(), enum_name.as_str());
    proof {
        assert(snake_fn_name@ == method_ident_view(m.name@, prior));
        assert(enum_name@ == enum_ident_view(m.name@, prior));
    }
    let child_lines_rs = match child_pass(m, cfg, ParameterFlavor::Rust, None, false) {
        Err(e) => {
            return Err(e);
        },
        Ok((v, _)) => v,
    };
    match cfg.method_flavor {
        MethodFlavor::SpiTrait => {
            let sub = match child_pass(
                m,
                cfg,
                ParameterFlavor::Rust,
                Some(LifetimeMark::BorrowedA),
                false,
            ) {
                Err(e) => {
                    return Err(e);
                },
                Ok((v, _)) => v,
            };
            let mut lines: Vec<String> = Vec::new();
            lines.push(cat3("    fn ", snake_fn_name.as_str(), "(&mut self"));
            if sub.len() > 0 {
                lines.push(String::from_str(", "));
            }
            let mut sub = sub;
            lines.append(&mut sub);
            lines.push(String::from_str(") {}\n"));
            proof {
                let sp = spec_prototype(*m, siblings@, pos as int, cfg_entry);
                assert(sp matches Ok(o) && line_views(lines@) =~= o.0);
            }
            Ok(lines)
        },
        MethodFlavor::ApiTrait => {
            let name_len = m.name.as_str().unicode_len();
            if name_len > 0 && m.name.as_str().get_char(0) == '~' {
                let lines: Vec<String> = Vec::new();
                proof {
                    let sp = spec_prototype(*m, siblings@, pos as int, cfg_entry);
                    assert(sp matches Ok(o) && line_views(lines@) =~= o.0);
                }
                return Ok(lines);
            }
            if str_eq(m.name.as_str(), "start") {
                let mut lines: Vec<String> = Vec::new();
                lines.push(
                    String::from_str(
                        "\n    pub fn start(&mut self, p_listener: *const dyn YDListenerTrait) -> bool {\n        let p_listener = Box::into_raw(Box::new((&YD_LISTENER_VTABLE, p_listener)));\n        unsafe {\n            ((*(*self).vtable_).YDApi_start)(self as *mut YDApi, p_listener as *mut YDListener)\n        }\n    }\n",
                    ),
                );
                proof {
                    let sp = spec_prototype(*m, siblings@, pos as int, cfg_entry);
                    assert(sp matches Ok(o) && line_views(lines@) =~= o.0);
                }
                return Ok(lines);
            }
            if contains_str(m.name.as_str(), "Multi") {
                let mut lines: Vec<String> = Vec::new();
                lines.push(
                    cat3("    // ", snake_fn_name.as_str(), " // Ignored (MethodFlavor::ApiTrait)\n"),
                );
                proof {
                    let sp = spec_prototype(*m, siblings@, pos as int, cfg_entry);
                    assert(sp matches Ok(o) && line_views(lines@) =~= o.0);
                }
                return Ok(lines);
            }
            let camel_base = to_camel_case(snake_fn_name.as_str());
            let camel_case_name = replace_id(camel_base.as_str());
            let rust_result_type = get_rs_result_type_from_c_result_type(m.result_type.as_str());
            let full_api_record_name = cat3(
                cfg.record_name.as_str(),
                "_",
                camel_case_name.as_str(),
            );
            let mcp = match child_pass(m, cfg, ParameterFlavor::MethodCallParam, None, false) {
                Err(e) => {
                    return Err(e);
                },
                Ok((v, _)) => v,
            };
            let mut lines: Vec<String> = Vec::new();
            lines.push(cat3("    pub fn ", snake_fn_name.as_str(), "(&mut self"));
            if child_lines_rs.len() > 0 {
                lines.push(String::from_str(", "));
            }
            let mut crs = child_lines_rs;
            lines.append(&mut crs);
            lines.push(
                cat6(
                    ") -> ",
                    rust_result_type.as_str(),
                    " {\n        unsafe {\n            ((*(*self).vtable_).",
                    full_api_record_name.as_str(),
                    ")(self as *mut ",
                    cfg.record_name.as_str(),
                ),
            );
            if mcp.len() > 0 {
                lines.push(String::from_str(", "));
            }
            let mut mcp = mcp;
            lines.append(&mut mcp);
            lines.push(String::from_str(")\n        }\n    }\n"));
            proof {
                let sp = spec_prototype(*m, siblings@, pos as int, cfg_entry);
                assert(sp matches Ok(o) && line_views(lines@) =~= o.0);
            }
            Ok(lines)
        },
        MethodFlavor::VTableStruct => {
            let sub = match child_pass(m, cfg, ParameterFlavor::Rust, None, true) {
                Err(e) => {
                    return Err(e);
                },
                Ok((v, _)) => v,
            };
            let mut lines: Vec<String> = Vec::new();
            lines.push(
                cat5(
                    "    ",
                    snake_fn_name.as_str(),
                    ": extern \"C\" fn(spi: *mut ",
                    cfg.record_name.as_str(),
                    "Fat",
                ),
            );
            if sub.len() > 0 {
                lines.push(String::from_str(", "));
            }
            let mut sub = sub;
            lines.append(&mut sub);
            lines.push(String::from_str("),\n"));
            proof {
                let sp = spec_prototype(*m, siblings@, pos as int, cfg_entry);
                assert(sp matches Ok(o) && line_views(lines@) =~= o.0);
            }
            Ok(lines)
        },
        MethodFlavor::StaticTable => {
            let mut lines: Vec<String> = Vec::new();
            lines.push(
                cat5("    ", snake_fn_name.as_str(), ": spi_", snake_fn_name.as_str(), ",\n"),
            );
            proof {
                let sp = spec_prototype(*m, siblings@, pos as int, cfg_entry);
                assert(sp matches Ok(o) && line_views(lines@) =~= o.0);
            }
            Ok(lines)
        },
        MethodFlavor::OutputEnum => {
            let pcfg = match child_pass(m, cfg, ParameterFlavor::RustStruct, None, false) {
                Err(e) => {
                    return Err(e);
                },
                Ok((_, c)) => c,
            };
            let life_time_param_on_parent = if pcfg.life_time_on_children {
                "<'a>"
            } else {
                ""
            };
            let mut lines: Vec<String> = Vec::new();
            lines.push(
                cat7(
                    "    ",
                    enum_name.as_str(),
                    "(",
                    packet_name_prefix.as_str(),
                    "Packet",
                    life_time_param_on_parent,
                    "),\n",
                ),
            );
            cfg.life_time_on_children = false;
            proof {
                let sp = spec_prototype(*m, siblings@, pos as int, cfg_entry);
                assert(sp matches Ok(o) && line_views(lines@) =~= o.0);
                assert(*cfg == (HandlerConfigs { life_time_on_children: false, ..cfg_entry }));
            }
            Ok(lines)
        },
        MethodFlavor::OutputEnumStruct => {
            let (sub, pcfg) = match child_pass(
                m,
                cfg,
                ParameterFlavor::RustStruct,
                Some(LifetimeMark::BorrowedA),
                false,
            ) {
                Err(e) => {
                    return Err(e);
                },
                Ok(p) => p,
            };
            let life_time_param_on_parent = if pcfg.life_time_on_children {
                "<'a>"
            } else {
                ""
            };
            let mut lines: Vec<String> = Vec::new();
            lines.push(
                cat5(
                    "\n#[allow(unused_lifetimes)]\n#[derive(Clone)]\npub struct ",
                    packet_name_prefix.as_str(),
                    "Packet",
                    life_time_param_on_parent,
                    " {\n",
                ),
            );
            let mut sub = sub;
            lines.append(&mut sub);
            lines.push(String::from_str("\n}\n"));
            cfg.life_time_on_children = false;
            proof {
                let sp = spec_prototype(*m, siblings@, pos as int, cfg_entry);
                assert(sp matches Ok(o) && line_views(lines@) =~= o.0);
                assert(*cfg == (HandlerConfigs { life_time_on_children: false, ..cfg_entry }));
            }
            Ok(lines)
        },
        MethodFlavor::CFn => {
            let sub = match child_pass(m, cfg, ParameterFlavor::Rust, None, true) {
                Err(e) => {
                    return Err(e);
                },
                Ok((v, _)) => v,
            };
            let uc = match child_pass(m, cfg, ParameterFlavor::UnsafeCheck, None, false) {
                Err(e) => {
                    return Err(e);
                },
                Ok((v, _)) => v,
            };
            let mcp = match child_pass(m, cfg, ParameterFlavor::MethodCallParam, None, true) {
                Err(e) => {
                    return Err(e);
                },
                Ok((v, _)) => v,
            };
            let mut lines: Vec<String> = Vec::new();
            lines.push(
                cat5(
                    "\nextern \"C\" fn spi_",
                    snake_fn_name.as_str(),
                    "(spi: *mut ",
                    cfg.record_name.as_str(),
                    "Fat",
                ),
            );
            if sub.len() > 0 {
                lines.push(String::from_str(", "));
            }
            let mut sub = sub;
            lines.append(&mut sub);
            lines.push(String::from_str(") {\n    unsafe {\n        assert!(!spi.is_null());\n"));
            let mut uc = uc;
            lines.append(&mut uc);
            lines.push(cat3("\n        (*(*spi).md_spi_ptr).", snake_fn_name.as_str(), "("));
            let mut mcp = mcp;
            lines.append(&mut mcp);
            lines.push(String::from_str(")\n    }\n}\n"));
            proof {
                let sp = spec_prototype(*m, siblings@, pos as int, cfg_entry);
                assert(sp matches Ok(o) && line_views(lines@) =~= o.0);
            }
            Ok(lines)
        },
        MethodFlavor::SpiFn => {
            let sub = match child_pass(
                m,
                cfg,
                ParameterFlavor::Rust,
                Some(LifetimeMark::BorrowedA),
                false,
            ) {
                Err(e) => {
                    return Err(e);
                },
                Ok((v, _)) => v,
            };
            let sf = match child_pass(m, cfg, ParameterFlavor::SpiFn, None, false) {
                Err(e) => {
                    return Err(e);
                },
                Ok((v, _)) => v,
            };
            let mut lines: Vec<String> = Vec::new();
            lines.push(cat3("    fn ", snake_fn_name.as_str(), "(&mut self"));
            if sub.len() > 0 {
                lines.push(String::from_str(", "));
            }
            let mut sub = sub;
            lines.append(&mut sub);
            lines.push(String::from_str(") {\n        self.inner.lock().unwrap().push("));
            lines.push(
                cat6(
                    cfg.record_name.as_str(),
                    "Output::",
                    enum_name.as_str(),
                    "(",
                    packet_name_prefix.as_str(),
                    "Packet {\n",
                ),
            );
            let mut sf = sf;
            lines.append(&mut sf);
            lines.push(String::from_str("        }))\n    }\n"));
            proof {
                let sp = spec_prototype(*m, siblings@, pos as int, cfg_entry);
                assert(sp matches Ok(o) && line_views(lines@) =~= o.0);
            }
            Ok(lines)
        },
        MethodFlavor::LogOnly => {
            let mut lines: Vec<String> = Vec::new();
            lines.push(cat3("// FunctionPrototype: ", m.name.as_str(), "\n"));
            proof {
                let sp = spec_prototype(*m, siblings@, pos as int, cfg_entry);
                assert(sp matches Ok(o) && line_views(lines@) =~= o.0);
            }
            Ok(lines)
        },
    }
}

proof fn lemma_prior_count_increases(siblings: Seq<RecordChild>, name: Seq<char>, i: int, j: int)
    requires
        0 <= i < j <= siblings.len(),
        siblings[i] is Method,
        siblings[i]->Method_0.name@ == name,
    ensures
        spec_prior_count(siblings, name, j) > spec_prior_count(siblings, name, i),
    decreases j,
{
    if j > i + 1 {
        lemma_prior_count_increases(siblings, name, i, j - 1);
    }
}

/// Two sibling declarations sharing a name receive distinct generated
/// identifiers: the first occurrence keeps the bare snake-cased name and each
/// later one appends its prior-occurrence count, and no two such identifiers
/// coincide. The identifier is a function of the declaration list alone, so
/// it is deterministic and stable across regeneration from an unchanged
/// input.
pub proof fn lemma_overload_idents_distinct(siblings: Seq<RecordChild>, i: int, j: int)
    requires
        0 <= i < j < siblings.len(),
        siblings[i] is Method,
        siblings[j] is Method,
        siblings[i]->Method_0.name@ == siblings[j]->Method_0.name@,
    ensures
        ({
            let name = siblings[i]->Method_0.name@;
            method_ident_view(name, spec_prior_count(siblings, name, i) as nat)
                != method_ident_view(name, spec_prior_count(siblings, name, j) as nat)
        }),
{
    let name = siblings[i]->Method_0.name@;
    let pi = spec_prior_count(siblings, name, i);
    let pj = spec_prior_count(siblings, name, j);
    lemma_prior_count_bound(siblings, name, i);
    lemma_prior_count_increases(siblings, name, i, j);
    let si = crate::names::spec_suffix(pi as nat);
    let sj = crate::names::spec_suffix(pj as nat);
    if pi == 0 {
        crate::text::lemma_dec_of_len(pj as nat);
        assert(si.len() == 0);
        assert(sj.len() >= 1);
        assert(si != sj);
    } else if si == sj {
        crate::text::lemma_dec_of_injective(pi as nat, pj as nat);
        assert(false);
    }
    crate::text::lemma_append_left_cancel(crate::names::snake_of(name), si, sj);
}

/// The trampoline's null-check line of one parameter.
pub open spec fn check_line_view(param_name: Seq<char>) -> Seq<char> {
    "        assert!(!"@ + crate::params::spec_param_name(param_name) + ".is_null());"@
}

proof fn lemma_uc_pass_has_checks(children: Seq<MethodChild>, i: int, cfg: HandlerConfigs, k: int)
    requires
        cfg.parameter_flavor is UnsafeCheck,
        spec_params_pass(children, i, cfg) is Ok,
        0 <= i <= k < children.len(),
        children[k] is Param,
        children[k]->Param_0.ty is Pointer,
    ensures
        spec_params_pass(children, i, cfg)->Ok_0.0.contains(
            check_line_view(children[k]->Param_0.name@),
        ),
    decreases children.len() - i,
{
    let total = spec_params_pass(children, i, cfg)->Ok_0.0;
    match children[i] {
        MethodChild::Other { .. } => {
            lemma_uc_pass_has_checks(children, i + 1, cfg, k);
        },
        MethodChild::Param(p) => {
            let cfg1 = HandlerConfigs {
                num_parent_children_same_handler: params_before(
                    children,
                    children.len() as int,
                ) as usize,
                index: params_before(children, i) as usize,
                ..cfg
            };
            let ls = spec_parameter_lines(p, cfg1)->Ok_0.0;
            let flag = spec_parameter_lines(p, cfg1)->Ok_0.1;
            let cfg2 = crate::params::with_flag(cfg1, flag);
            let rest = spec_params_pass(children, i + 1, cfg2)->Ok_0.0;
            assert(total == ls + rest);
            if i == k {
                let check = check_line_view(p.name@);
                assert(ls.contains(check)) by {
                    if cfg1.num_parent_children_same_handler == 1 {
                        assert(ls[0] == check);
                    } else {
                        assert(ls[1] == check);
                    }
                }
                let w = choose|w: int| 0 <= w < ls.len() && ls[w] == check;
                assert(total[w] == check);
                assert(total.contains(check));
            } else {
                lemma_uc_pass_has_checks(children, i + 1, cfg2, k);
                let check = check_line_view(children[k]->Param_0.name@);
                let w = choose|w: int| 0 <= w < rest.len() && rest[w] == check;
                assert(total[ls.len() + w] == check);
                assert(total.contains(check));
            }
        },
    }
}

/// Whether every parameter of a method has a mapping.
pub open spec fn method_all_mappable(m: MethodDecl) -> bool {
    forall|k: int|
        0 <= k < m.children@.len() && m.children@[k] is Param ==> crate::params::ty_mappable(
            (#[trigger] m.children@[k])->Param_0.ty,
        )
}

/// A parameter pass succeeds exactly when every parameter it visits has a
/// mapping; otherwise it aborts with the diagnostic of the first unmapped
/// one, whatever the flavor in its configuration.
pub proof fn lemma_params_pass_ok_iff(children: Seq<MethodChild>, i: int, cfg: HandlerConfigs)
    requires
        0 <= i,
    ensures
        spec_params_pass(children, i, cfg) is Ok <==> (forall|k: int|
            i <= k < children.len() && children[k] is Param ==> crate::params::ty_mappable(
                (#[trigger] children[k])->Param_0.ty,
            )),
        spec_params_pass(children, i, cfg) is Err ==> exists|k: int|
            i <= k < children.len() && children[k] is Param && !crate::params::ty_mappable(
                (#[trigger] children[k])->Param_0.ty,
            ) && spec_params_pass(children, i, cfg) == Err::<
                (Seq<Seq<char>>, HandlerConfigs),
                GenError,
            >(crate::params::ty_error(children[k]->Param_0.ty)),
    decreases children.len() - i,
{
    if i >= children.len() {
    } else {
        match children[i] {
            MethodChild::Other { .. } => {
                lemma_params_pass_ok_iff(children, i + 1, cfg);
            },
            MethodChild::Param(p) => {
                let cfg1 = HandlerConfigs {
                    num_parent_children_same_handler: params_before(
                        children,
                        children.len() as int,
                    ) as usize,
                    index: params_before(children, i) as usize,
                    ..cfg
                };
                crate::params::lemma_parameter_lines_err_iff(p, cfg1);
                match spec_parameter_lines(p, cfg1) {
                    Err(_) => {
                        assert(children[i] is Param && !crate::params::ty_mappable(
                            children[i]->Param_0.ty,
                        ));
                    },
                    Ok((_, flag)) => {
                        lemma_params_pass_ok_iff(children, i + 1, with_flag(cfg1, flag));
                    },
                }
            },
        }
    }
}

/// A method contributes its artifact exactly when every one of its
/// parameters has a mapping; otherwise every flavor aborts with the
/// diagnostic of one unmapped parameter, naming its type.
pub proof fn lemma_prototype_ok_iff(
    m: MethodDecl,
    siblings: Seq<RecordChild>,
    pos: int,
    cfg: HandlerConfigs,
)
    ensures
        spec_prototype(m, siblings, pos, cfg) is Ok <==> method_all_mappable(m),
        spec_prototype(m, siblings, pos, cfg) is Err ==> exists|k: int|
            0 <= k < m.children@.len() && m.children@[k] is Param && !crate::params::ty_mappable(
                (#[trigger] m.children@[k])->Param_0.ty,
            ) && spec_prototype(m, siblings, pos, cfg) == Err::<
                (Seq<Seq<char>>, HandlerConfigs),
                GenError,
            >(crate::params::ty_error(m.children@[k]->Param_0.ty)),
{
    lemma_params_pass_ok_iff(m.children@, 0, cfg_param(cfg, ParameterFlavor::Rust));
    lemma_params_pass_ok_iff(
        m.children@,
        0,
        cfg_param_lt(cfg, ParameterFlavor::Rust, LifetimeMark::BorrowedA),
    );
    lemma_params_pass_ok_iff(m.children@, 0, cfg_param(cfg, ParameterFlavor::MethodCallParam));
    lemma_params_pass_ok_iff(m.children@, 0, cfg_param_pp(cfg, ParameterFlavor::Rust));
    lemma_params_pass_ok_iff(m.children@, 0, cfg_param(cfg, ParameterFlavor::RustStruct));
    lemma_params_pass_ok_iff(
        m.children@,
        0,
        cfg_param_lt(cfg, ParameterFlavor::RustStruct, LifetimeMark::BorrowedA),
    );
    lemma_params_pass_ok_iff(m.children@, 0, cfg_param(cfg, ParameterFlavor::UnsafeCheck));
    lemma_params_pass_ok_iff(m.children@, 0, cfg_param_pp(cfg, ParameterFlavor::MethodCallParam));
    lemma_params_pass_ok_iff(m.children@, 0, cfg_param(cfg, ParameterFlavor::SpiFn));
}

/// A trampoline null-checks every pointer-typed argument before any
/// dereference: in the emitted fragment list, the check of each such
/// parameter stands strictly before the line that dereferences the fat
/// pointer and dispatches into the bridge.
pub proof fn lemma_trampoline_checks_precede_dispatch(
    m: MethodDecl,
    siblings: Seq<RecordChild>,
    pos: int,
    cfg: HandlerConfigs,
    k: int,
)
    requires
        cfg.method_flavor is CFn,
        spec_prototype(m, siblings, pos, cfg) is Ok,
        0 <= k < m.children@.len(),
        m.children@[k] is Param,
        m.children@[k]->Param_0.ty is Pointer,
    ensures
        ({
            let lines = spec_prototype(m, siblings, pos, cfg)->Ok_0.0;
            let check = check_line_view(m.children@[k]->Param_0.name@);
            let snake = method_ident_view(
                m.name@,
                spec_prior_count(siblings, m.name@, pos) as nat,
            );
            let dispatch = "\n        (*(*spi).md_spi_ptr)."@ + snake + "("@;
            exists|ci: int, di: int|
                0 <= ci < di < lines.len() && lines[ci] == check && lines[di] == dispatch
        }),
{
    let lines = spec_prototype(m, siblings, pos, cfg)->Ok_0.0;
    let check = check_line_view(m.children@[k]->Param_0.name@);
    let prior = spec_prior_count(siblings, m.name@, pos) as nat;
    let snake = method_ident_view(m.name@, prior);
    let dispatch = "\n        (*(*spi).md_spi_ptr)."@ + snake + "("@;
    let ps = spec_params_pass(m.children@, 0, cfg_param_pp(cfg, ParameterFlavor::Rust))->Ok_0.0;
    let uc = spec_params_pass(m.children@, 0, cfg_param(cfg, ParameterFlavor::UnsafeCheck))->Ok_0.0;
    let mcp = spec_params_pass(
        m.children@,
        0,
        cfg_param_pp(cfg, ParameterFlavor::MethodCallParam),
    )->Ok_0.0;
    let head = seq![
        "\nextern \"C\" fn spi_"@ + snake + "(spi: *mut "@ + cfg.record_name@ + "Fat"@,
    ] + sep_if(ps) + ps + seq![") {\n    unsafe {\n        assert!(!spi.is_null());\n"@];
    assert(lines == head + uc + seq![dispatch] + mcp + seq![")\n    }\n}\n"@]);
    lemma_uc_pass_has_checks(m.children@, 0, cfg_param(cfg, ParameterFlavor::UnsafeCheck), k);
    let w = choose|w: int| 0 <= w < uc.len() && uc[w] == check;
    let ci = head.len() as int + w;
    let di = head.len() as int + uc.len() as int;
    assert(lines[ci] == check);
    assert(lines[di] == dispatch);
    assert(0 <= ci < di < lines.len());
}

} // verus!
