//! Record and interface assembly. For a record recognized as the callback
//! contract it emits, in order: the capability trait, the ABI dispatch-table
//! struct, the tagged event type, the per-method payload structs, the static
//! dispatch-table instance, the native trampolines, the fat-pointer aggregate
//! and the runtime bridge wrapper — each pass re-traversing the same method
//! declarations, so field order, entry order and event order all equal native
//! declaration order. For the record recognized as the outbound API it emits
//! the safe wrapper methods.

use crate::config::{
    clone_configs, HandlerConfigs, LifetimeMark, MethodFlavor, ParameterFlavor, RecordFlavor,
};
use crate::errors::GenError;
use crate::methods::{handle_function_prototype, spec_prototype};
use crate::model::{RecordChild, RecordDecl, TopDecl, TranslationUnit};
use crate::names::{
    ascii_upper, full_name_view, get_full_name_of_entity, snake_of, to_snake_case, upper_view,
};
use crate::text::{cat2, cat3, cat5, line_views, str_eq};
use vstd::prelude::*;
use vstd::string::StrSliceExecFns;
use vstd::string::StringExecFns;

verus! {

/// How many method children stand among the first `i` children of a record.
pub open spec fn methods_before(children: Seq<RecordChild>, i: int) -> int
    decreases i,
{
    if i <= 0 {
        0
    } else {
        methods_before(children, i - 1) + if children[i - 1] is Method {
            1int
        } else {
            0int
        }
    }
}

pub proof fn lemma_methods_before_bound(children: Seq<RecordChild>, i: int)
    requires
        0 <= i <= children.len(),
    ensures
        0 <= methods_before(children, i) <= i,
    decreases i,
{
    if i > 0 {
        lemma_methods_before_bound(children, i - 1);
    }
}

/// Counts the children of a record that share the method handler.
pub fn count_children_with_same_handler(children: &Vec<RecordChild>) -> (r: usize)
    ensures
        r == methods_before(children@, children@.len() as int),
{
    let mut count: usize = 0;
    let mut i: usize = 0;
    while i < children.len()
        invariant
            i <= children@.len(),
            count == methods_before(children@, i as int),
            count <= i,
        decreases children@.len() - i,
    {
        match &children[i] {
            RecordChild::Method(_) => {
                count = count + 1;
            },
            RecordChild::Other { .. } => {},
        }
        i = i + 1;
    }
    count
}

/// Counts the same-handler children of a record that stand before `pos`.
pub fn get_child_index_with_same_handler(children: &Vec<RecordChild>, pos: usize) -> (r: usize)
    requires
        pos <= children@.len(),
    ensures
        r == methods_before(children@, pos as int),
{
    let mut count: usize = 0;
    let mut i: usize = 0;
    while i < pos
        invariant
            i <= pos <= children@.len(),
            count == methods_before(children@, i as int),
            count <= i,
        decreases pos - i,
    {
        match &children[i] {
            RecordChild::Method(_) => {
                count = count + 1;
            },
            RecordChild::Other { .. } => {},
        }
        i = i + 1;
    }
    count
}

/// The method pass over a record's children: visits each same-handler child
/// in declaration order with the sibling count and index recomputed for it,
/// collects the emitted fragments and threads the configuration through the
/// visits (the event flavors clear the bottom-up lifetime flag in it).
pub open spec fn spec_record_pass(
    children: Seq<RecordChild>,
    i: int,
    cfg: HandlerConfigs,
) -> Result<(Seq<Seq<char>>, HandlerConfigs), GenError>
    decreases children.len() - i,
{
    if i < 0 || i >= children.len() {
        Ok((Seq::empty(), cfg))
    } else {
        match children[i] {
            RecordChild::Other { .. } => spec_record_pass(children, i + 1, cfg),
            RecordChild::Method(mm) => {
                let cfg1 = HandlerConfigs {
                    num_parent_children_same_handler: methods_before(
                        children,
                        children.len() as int,
                    ) as usize,
                    index: methods_before(children, i) as usize,
                    ..cfg
                };
                match spec_prototype(mm, children, i, cfg1) {
                    Err(e) => Err(e),
                    Ok((ls, cfg2)) => match spec_record_pass(children, i + 1, cfg2) {
                        Err(e) => Err(e),
                        Ok((rest, cfgf)) => Ok((ls + rest, cfgf)),
                    },
                }
            },
        }
    }
}

/// The method pass from position `i` on, as `spec_record_pass` states it.
fn record_pass_from(children: &Vec<RecordChild>, i: usize, cfg: &mut HandlerConfigs) -> (r: Result<
    Vec<String>,
    GenError,
>)
    requires
        i <= children@.len(),
    ensures
        ({
            let sp = spec_record_pass(children@, i as int, *old(cfg));
            match r {
                Ok(v) => sp matches Ok(o) && line_views(v@) == o.0 && *final(cfg) == o.1,
                Err(e) => sp == Err::<(Seq<Seq<char>>, HandlerConfigs), GenError>(e),
            }
        }),
    decreases children@.len() - i,
{
    if i == children.len() {
        let r: Vec<String> = Vec::new();
        proof {
            assert(line_views(r@) =~= Seq::<Seq<char>>::empty());
        }
        return Ok(r);
    }
    match &children[i] {
        RecordChild::Other { .. } => record_pass_from(children, i + 1, cfg),
        RecordChild::Method(mm) => {
            let ghost cfg_head = *cfg;
            let total = count_children_with_same_handler(children);
            let before = get_child_index_with_same_handler(children, i);
            cfg.num_parent_children_same_handler = total;
            cfg.index = before;
            let ghost cfg1 = *cfg;
            proof {
                lemma_methods_before_bound(children@, i as int);
                lemma_methods_before_bound(children@, children@.len() as int);
                assert(cfg1 == (HandlerConfigs {
                    num_parent_children_same_handler: methods_before(
                        children@,
                        children@.len() as int,
                    ) as usize,
                    index: methods_before(children@, i as int) as usize,
                    ..cfg_head
                }));
            }
            match handle_function_prototype(mm, children, i, cfg) {
                Err(e) => {
                    proof {
                        assert(spec_record_pass(children@, i as int, cfg_head) == Err::<
                            (Seq<Seq<char>>, HandlerConfigs),
                            GenError,
                        >(e));
                    }
                    Err(e)
                },
                Ok(mut v) => {
                    match record_pass_from(children, i + 1, cfg) {
                        Err(e) => {
                            proof {
                                assert(spec_record_pass(children@, i as int, cfg_head) == Err::<
                                    (Seq<Seq<char>>, HandlerConfigs),
                                    GenError,
                                >(e));
                            }
                            Err(e)
                        },
                        Ok(mut rest) => {
                            proof {
                                crate::text::lemma_line_views_app(v@, rest@);
                            }
                            v.append(&mut rest);
                            Ok(v)
                        },
                    }
                },
            }
        },
    }
}

/// Visits every same-handler child of a record under the method flavor held
/// in the configuration, collecting the fragments in declaration order.
pub fn process_children(record: &RecordDecl, cfg: &mut HandlerConfigs) -> (r: Result<
    Vec<String>,
    GenError,
>)
    ensures
        ({
            let sp = spec_record_pass(record.children@, 0, *old(cfg));
            match r {
                Ok(v) => sp matches Ok(o) && line_views(v@) == o.0 && *final(cfg) == o.1,
                Err(e) => sp == Err::<(Seq<Seq<char>>, HandlerConfigs), GenError>(e),
            }
        }),
{
    record_pass_from(&record.children, 0, cfg)
}

/// Runs one method pass over a record from a copy of `cfg` specialized to the
/// given method flavor, handing back the fragments alone.
fn method_pass(record: &RecordDecl, cfg: &HandlerConfigs, mf: MethodFlavor) -> (r: Result<
    Vec<String>,
    GenError,
>)
    ensures
        ({
            let sp = spec_record_pass(
                record.children@,
                0,
                HandlerConfigs { method_flavor: mf, ..*cfg },
            );
            match r {
                Ok(v) => sp matches Ok(o) && line_views(v@) == o.0,
                Err(e) => sp == Err::<(Seq<Seq<char>>, HandlerConfigs), GenError>(e),
            }
        }),
{
    let mut c = clone_configs(cfg);
    c.method_flavor = mf;
    match record_pass_from(&record.children, 0, &mut c) {
        Err(e) => Err(e),
        Ok(v) => Ok(v),
    }
}

/// A record pass under the given method flavor, wrapped in a head line and a
/// closing brace.
pub open spec fn spec_braced_pass(
    r: RecordDecl,
    cfg: HandlerConfigs,
    mf: MethodFlavor,
    head: Seq<char>,
) -> Result<Seq<Seq<char>>, GenError> {
    match spec_record_pass(r.children@, 0, HandlerConfigs { method_flavor: mf, ..cfg }) {
        Err(e) => Err(e),
        Ok((ls, _)) => Ok(seq![head] + ls + seq!["}"@]),
    }
}

/// The capability interface: one default no-op stub per callback method.
pub open spec fn spec_trait_lines(
    r: RecordDecl,
    cfg: HandlerConfigs,
    full_trait_name: Seq<char>,
) -> Result<Seq<Seq<char>>, GenError> {
    spec_braced_pass(
        r,
        cfg,
        MethodFlavor::SpiTrait,
        "pub trait "@ + full_trait_name + ": Send {"@,
    )
}

/// Emits the capability trait of a callback record.
pub fn handle_trait(
    record: &RecordDecl,
    cfg: &HandlerConfigs,
    full_rust_struct_name: &str,
    full_trait_name: &str,
) -> (r: Result<Vec<String>, GenError>)
    ensures
        ({
            let sp = spec_trait_lines(*record, *cfg, full_trait_name@);
            match r {
                Ok(v) => sp matches Ok(ls) && line_views(v@) == ls,
                Err(e) => sp == Err::<Seq<Seq<char>>, GenError>(e),
            }
        }),
{
    let mut lines: Vec<String> = Vec::new();
    lines.push(cat3("pub trait ", full_trait_name, ": Send {"));
    let mut sub = match method_pass(record, cfg, MethodFlavor::SpiTrait) {
        Err(e) => {
            return Err(e);
        },
        Ok(v) => v,
    };
    lines.append(&mut sub);
    lines.push(String::from_str("}"));
    proof {
        let sp = spec_trait_lines(*record, *cfg, full_trait_name@);
        assert(sp matches Ok(ls) && line_views(lines@) =~= ls);
    }
    Ok(lines)
}

/// The ABI dispatch table: one function-pointer field per callback method,
/// in native declaration order.
pub open spec fn spec_vtable_lines(
    r: RecordDecl,
    cfg: HandlerConfigs,
    vtable_struct_name: Seq<char>,
) -> Result<Seq<Seq<char>>, GenError> {
    spec_braced_pass(
        r,
        cfg,
        MethodFlavor::VTableStruct,
        "\n#[repr(C)]\n#[derive(Debug)]\nstruct "@ + vtable_struct_name + " {"@,
    )
}

/// Emits the ABI dispatch-table struct of a callback record.
pub fn handle_vtable(
    record: &RecordDecl,
    cfg: &HandlerConfigs,
    full_rust_struct_name: &str,
    vtable_struct_name: &str,
) -> (r: Result<Vec<String>, GenError>)
    ensures
        ({
            let sp = spec_vtable_lines(*record, *cfg, vtable_struct_name@);
            match r {
                Ok(v) => sp matches Ok(ls) && line_views(v@) == ls,
                Err(e) => sp == Err::<Seq<Seq<char>>, GenError>(e),
            }
        }),
{
    let mut lines: Vec<String> = Vec::new();
    lines.push(cat3("\n#[repr(C)]\n#[derive(Debug)]\nstruct ", vtable_struct_name, " {"));
    let mut sub = match method_pass(record, cfg, MethodFlavor::VTableStruct) {
        Err(e) => {
            return Err(e);
        },
        Ok(v) => v,
    };
    lines.append(&mut sub);
    lines.push(String::from_str("}"));
    proof {
        let sp = spec_vtable_lines(*record, *cfg, vtable_struct_name@);
        assert(sp matches Ok(ls) && line_views(lines@) =~= ls);
    }
    Ok(lines)
}

/// The tagged event type: one variant per callback method, in declaration
/// order.
pub open spec fn spec_output_enum_lines(
    r: RecordDecl,
    cfg: HandlerConfigs,
    full_rust_struct_name: Seq<char>,
) -> Result<Seq<Seq<char>>, GenError> {
    spec_braced_pass(
        r,
        cfg,
        MethodFlavor::OutputEnum,
        "\n#[derive(Clone, Debug)]\npub enum "@ + full_rust_struct_name + "Output"@ + " {"@,
    )
}

/// Emits the tagged event type of a callback record.
pub fn handle_spi_output_enum(
    record: &RecordDecl,
    cfg: &HandlerConfigs,
    full_rust_struct_name: &str,
) -> (r: Result<Vec<String>, GenError>)
    ensures
        ({
            let sp = spec_output_enum_lines(*record, *cfg, full_rust_struct_name@);
            match r {
                Ok(v) => sp matches Ok(ls) && line_views(v@) == ls,
                Err(e) => sp == Err::<Seq<Seq<char>>, GenError>(e),
            }
        }),
{
    let mut lines: Vec<String> = Vec::new();
    lines.push(
        crate::text::cat4("\n#[derive(Clone, Debug)]\npub enum ", full_rust_struct_name, "Output", " {"),
    );
    let mut sub = match method_pass(record, cfg, MethodFlavor::OutputEnum) {
        Err(e) => {
            return Err(e);
        },
        Ok(v) => v,
    };
    lines.append(&mut sub);
    lines.push(String::from_str("}"));
    proof {
        let sp = spec_output_enum_lines(*record, *cfg, full_rust_struct_name@);
        assert(sp matches Ok(ls) && line_views(lines@) =~= ls);
    }
    Ok(lines)
}

/// The per-method event payload structs, one pass over all methods.
pub open spec fn spec_output_enum_struct_lines(r: RecordDecl, cfg: HandlerConfigs) -> Result<
    Seq<Seq<char>>,
    GenError,
> {
    match spec_record_pass(
        r.children@,
        0,
        HandlerConfigs { method_flavor: MethodFlavor::OutputEnumStruct, ..cfg },
    ) {
        Err(e) => Err(e),
        Ok((ls, _)) => Ok(ls),
    }
}

/// Emits the event payload structs of a callback record.
pub fn handle_output_enum_struct(record: &RecordDecl, cfg: &HandlerConfigs) -> (r: Result<
    Vec<String>,
    GenError,
>)
    ensures
        ({
            let sp = spec_output_enum_struct_lines(*record, *cfg);
            match r {
                Ok(v) => sp matches Ok(ls) && line_views(v@) == ls,
                Err(e) => sp == Err::<Seq<Seq<char>>, GenError>(e),
            }
        }),
{
    method_pass(record, cfg, MethodFlavor::OutputEnumStruct)
}

/// The static dispatch-table instance: one entry per callback method,
/// pointing at its trampoline, in declaration order.
pub open spec fn spec_static_table_lines(
    r: RecordDecl,
    cfg: HandlerConfigs,
    full_rust_struct_name: Seq<char>,
) -> Result<Seq<Seq<char>>, GenError> {
    let var = upper_view(snake_of(full_rust_struct_name)) + "_VTABLE"@;
    let vt = full_rust_struct_name + "VTable"@;
    spec_braced_pass(
        r,
        cfg,
        MethodFlavor::StaticTable,
        "\nstatic "@ + var + ": "@ + vt + " = "@ + vt + " {"@,
    )
}

/// Emits the static dispatch-table instance of a callback record.
pub fn handle_static_table(
    record: &RecordDecl,
    cfg: &HandlerConfigs,
    full_rust_struct_name: &str,
) -> (r: Result<Vec<String>, GenError>)
    ensures
        ({
            let sp = spec_static_table_lines(*record, *cfg, full_rust_struct_name@);
            match r {
                Ok(v) => sp matches Ok(ls) && line_views(v@) == ls,
                Err(e) => sp == Err::<Seq<Seq<char>>, GenError>(e),
            }
        }),
{
    let snake = to_snake_case(full_rust_struct_name);
    let upper = ascii_upper(snake.as_str());
    let var = cat2(upper.as_str(), "_VTABLE");
    let vt = cat2(full_rust_struct_name, "VTable");
    let mut lines: Vec<String> = Vec::new();
    lines.push(
        crate::text::cat7("\nstatic ", var.as_str(), ": ", vt.as_str(), " = ", vt.as_str(), " {"),
    );
    let mut sub = match method_pass(record, cfg, MethodFlavor::StaticTable) {
        Err(e) => {
            return Err(e);
        },
        Ok(v) => v,
    };
    lines.append(&mut sub);
    lines.push(String::from_str("}"));
    proof {
        let sp = spec_static_table_lines(*record, *cfg, full_rust_struct_name@);
        assert(sp matches Ok(ls) && line_views(lines@) =~= ls);
    }
    Ok(lines)
}

/// The native trampolines, one per callback method.
pub open spec fn spec_c_fn_lines(r: RecordDecl, cfg: HandlerConfigs) -> Result<
    Seq<Seq<char>>,
    GenError,
> {
    match spec_record_pass(
        r.children@,
        0,
        HandlerConfigs { method_flavor: MethodFlavor::CFn, ..cfg },
    ) {
        Err(e) => Err(e),
        Ok((ls, _)) => Ok(ls),
    }
}

/// Emits the native trampolines of a callback record.
pub fn handle_c_fn(record: &RecordDecl, cfg: &HandlerConfigs) -> (r: Result<Vec<String>, GenError>)
    ensures
        ({
            let sp = spec_c_fn_lines(*record, *cfg);
            match r {
                Ok(v) => sp matches Ok(ls) && line_views(v@) == ls,
                Err(e) => sp == Err::<Seq<Seq<char>>, GenError>(e),
            }
        }),
{
    method_pass(record, cfg, MethodFlavor::CFn)
}

/// The fat-pointer aggregate handed to the native library as the callback
/// target: the dispatch table beside the opaque implementation pointer.
pub open spec fn fat_spi_view(
    full_rust_struct_name: Seq<char>,
    vtable_struct_name: Seq<char>,
    full_trait_name: Seq<char>,
) -> Seq<char> {
    "\n#[repr(C)]\npub struct "@ + full_rust_struct_name + "Fat {\n  vtable: *const "@
        + vtable_struct_name + ",\n  pub md_spi_ptr: *mut dyn "@ + full_trait_name + ",\n}\n"@
}

/// Emits the fat-pointer aggregate type of a callback record.
pub fn handle_fat_spi(
    full_rust_struct_name: &str,
    vtable_struct_name: &str,
    full_trait_name: &str,
) -> (r: String)
    ensures
        r@ == fat_spi_view(full_rust_struct_name@, vtable_struct_name@, full_trait_name@),
{
    crate::text::cat6(
        "\n#[repr(C)]\npub struct ",
        full_rust_struct_name,
        "Fat {\n  vtable: *const ",
        vtable_struct_name,
        ",\n  pub md_spi_ptr: *mut dyn ",
        full_trait_name,
    ).concat(",\n}\n")
}

/// The runtime bridge wrapper emitted beside the generated bindings: the
/// queue-backed stream type, its push method waking the waiting consumer, the
/// asynchronous drain, and the constructor that leaks the stream's address to
/// hand the native library a stable callback target.
pub open spec fn spi_stream_view(spi: Seq<char>, out: Seq<char>) -> Seq<char> {
    "\n  use futures::stream::Stream;\n  use std::{\n      pin::Pin,\n      sync::{Arc, Mutex},\n      task::Waker,\n  };\n\n  struct "@
        + spi + "Inner {\n      buf: std::collections::VecDeque<"@ + out
        + ">,\n      waker: Option<Waker>,\n  }\n\n  impl "@ + spi
        + "Inner {\n      fn push(&mut self, msg: "@ + out
        + ") {\n          self.buf.push_back(msg);\n          if let Some(ref waker) = &self.waker {\n              waker.clone().wake()\n          }\n      }\n  }\n\n  pub struct "@
        + spi + "Stream {\n      inner: Arc<Mutex<"@ + spi
        + "Inner>>,\n  }\n\n  impl Stream for "@ + spi + "Stream {\n      type Item = "@ + out
        + ";\n\n      fn poll_next(\n          self: Pin<&mut Self>,\n          cx: &mut futures::task::Context<'_>,\n      ) -> futures::task::Poll<Option<Self::Item>> {\n          use futures::task::Poll;\n          let mut inner = self.inner.lock().unwrap();\n          if let Some(i) = inner.buf.pop_front() {\n              Poll::Ready(Some(i))\n          } else {\n              inner.waker = Some(cx.waker().clone());\n              Poll::Pending\n          }\n      }\n\n      fn size_hint(&self) -> (usize, Option<usize>) {\n          (0, None)\n      }\n  }\n\n  pub fn create_spi() -> (Box<"@
        + spi + "Stream>, *mut "@ + spi + "Stream) {\n      let i = "@ + spi
        + "Inner {\n          buf: std::collections::VecDeque::new(),\n          waker: None,\n      };\n      let xspi = "@
        + spi
        + "Stream {\n          inner: Arc::new(Mutex::new(i)),\n      };\n      let myspi = Box::new(xspi);\n      let pp = Box::into_raw(myspi);\n      let pp2 = pp.clone();\n      (unsafe { Box::from_raw(pp2) }, pp)\n  }\n  "@
}

/// Emits the runtime bridge wrapper of a callback record.
pub fn handle_spi_stream_code(full_spi_name: &str, full_spi_output_enum_name: &str) -> (r: String)
    ensures
        r@ == spi_stream_view(full_spi_name@, full_spi_output_enum_name@),
{
    let mut s = String::from_str(
        "\n  use futures::stream::Stream;\n  use std::{\n      pin::Pin,\n      sync::{Arc, Mutex},\n      task::Waker,\n  };\n\n  struct ",
    );
    s.append(full_spi_name);
    s.append("Inner {\n      buf: std::collections::VecDeque<");
    s.append(full_spi_output_enum_name);
    s.append(">,\n      waker: Option<Waker>,\n  }\n\n  impl ");
    s.append(full_spi_name);
    s.append("Inner {\n      fn push(&mut self, msg: ");
    s.append(full_spi_output_enum_name);
    s.append(
        ") {\n          self.buf.push_back(msg);\n          if let Some(ref waker) = &self.waker {\n              waker.clone().wake()\n          }\n      }\n  }\n\n  pub struct ",
    );
    s.append(full_spi_name);
    s.append("Stream {\n      inner: Arc<Mutex<");
    s.append(full_spi_name);
    s.append("Inner>>,\n  }\n\n  impl Stream for ");
    s.append(full_spi_name);
    s.append("Stream {\n      type Item = ");
    s.append(full_spi_output_enum_name);
    s.append(
        ";\n\n      fn poll_next(\n          self: Pin<&mut Self>,\n          cx: &mut futures::task::Context<'_>,\n      ) -> futures::task::Poll<Option<Self::Item>> {\n          use futures::task::Poll;\n          let mut inner = self.inner.lock().unwrap();\n          if let Some(i) = inner.buf.pop_front() {\n              Poll::Ready(Some(i))\n          } else {\n              inner.waker = Some(cx.waker().clone());\n              Poll::Pending\n          }\n      }\n\n      fn size_hint(&self) -> (usize, Option<usize>) {\n          (0, None)\n      }\n  }\n\n  pub fn create_spi() -> (Box<",
    );
    s.append(full_spi_name);
    s.append("Stream>, *mut ");
    s.append(full_spi_name);
    s.append("Stream) {\n      let i = ");
    s.append(full_spi_name);
    s.append(
        "Inner {\n          buf: std::collections::VecDeque::new(),\n          waker: None,\n      };\n      let xspi = ",
    );
    s.append(full_spi_name);
    s.append(
        "Stream {\n          inner: Arc::new(Mutex::new(i)),\n      };\n      let myspi = Box::new(xspi);\n      let pp = Box::into_raw(myspi);\n      let pp2 = pp.clone();\n      (unsafe { Box::from_raw(pp2) }, pp)\n  }\n  ",
    );
    s
}

/// The trait impl that wires every callback into the bridge queue.
pub open spec fn spec_spi_fn_lines(
    r: RecordDecl,
    cfg: HandlerConfigs,
    full_trait_name: Seq<char>,
    full_rust_struct_name: Seq<char>,
) -> Result<Seq<Seq<char>>, GenError> {
    spec_braced_pass(
        r,
        cfg,
        MethodFlavor::SpiFn,
        "impl "@ + full_trait_name + " for "@ + full_rust_struct_name + "Stream {"@,
    )
}

/// Emits the impl of the capability trait for the bridge stream: each method
/// pushes its event onto the queue.
pub fn handle_spi_fn(
    record: &RecordDecl,
    cfg: &HandlerConfigs,
    full_trait_name: &str,
    full_rust_struct_name: &str,
) -> (r: Result<Vec<String>, GenError>)
    ensures
        ({
            let sp = spec_spi_fn_lines(*record, *cfg, full_trait_name@, full_rust_struct_name@);
            match r {
                Ok(v) => sp matches Ok(ls) && line_views(v@) == ls,
                Err(e) => sp == Err::<Seq<Seq<char>>, GenError>(e),
            }
        }),
{
    let mut lines: Vec<String> = Vec::new();
    lines.push(cat5("impl ", full_trait_name, " for ", full_rust_struct_name, "Stream {"));
    let mut sub = match method_pass(record, cfg, MethodFlavor::SpiFn) {
        Err(e) => {
            return Err(e);
        },
        Ok(v) => v,
    };
    lines.append(&mut sub);
    lines.push(String::from_str("}"));
    proof {
        let sp = spec_spi_fn_lines(*record, *cfg, full_trait_name@, full_rust_struct_name@);
        assert(sp matches Ok(ls) && line_views(lines@) =~= ls);
    }
    Ok(lines)
}

/// The whole mutually-consistent bundle of a callback record, in order:
/// capability trait, dispatch-table struct, tagged event type, payload
/// structs, static table instance, trampolines, fat-pointer aggregate and the
/// runtime bridge wrapper. Every pass walks the same method declarations, so
/// the orders all equal native declaration order.
pub open spec fn spec_spi_record_lines(
    r: RecordDecl,
    cfg: HandlerConfigs,
    full: Seq<char>,
) -> Result<Seq<Seq<char>>, GenError> {
    let vt = full + "VTable"@;
    let tr = full + "_trait"@;
    match spec_trait_lines(r, cfg, tr) {
        Err(e) => Err(e),
        Ok(a) => match spec_vtable_lines(r, cfg, vt) {
            Err(e) => Err(e),
            Ok(b) => match spec_output_enum_lines(r, cfg, full) {
                Err(e) => Err(e),
                Ok(c) => match spec_output_enum_struct_lines(r, cfg) {
                    Err(e) => Err(e),
                    Ok(d) => match spec_static_table_lines(r, cfg, full) {
                        Err(e) => Err(e),
                        Ok(st) => match spec_c_fn_lines(r, cfg) {
                            Err(e) => Err(e),
                            Ok(cf) => Ok(
                                a + b + c + d + st + cf + seq![fat_spi_view(full, vt, tr)] + seq![
                                    spi_stream_view(full, full + "Output"@),
                                ],
                            ),
                        },
                    },
                },
            },
        },
    }
}

/// Assembles the callback bundle of one record.
pub fn handle_spi_record(
    record: &RecordDecl,
    cfg: &HandlerConfigs,
    full_rust_struct_name: &str,
) -> (r: Result<Vec<String>, GenError>)
    ensures
        ({
            let sp = spec_spi_record_lines(*record, *cfg, full_rust_struct_name@);
            match r {
                Ok(v) => sp matches Ok(ls) && line_views(v@) == ls,
                Err(e) => sp == Err::<Seq<Seq<char>>, GenError>(e),
            }
        }),
{
    let vtable_struct_name = cat2(full_rust_struct_name, "VTable");
    let full_trait_name = cat2(full_rust_struct_name, "_trait");
    let mut lines = match handle_trait(
        record,
        cfg,
        full_rust_struct_name,
        full_trait_name.as_str(),
    ) {
        Err(e) => {
            return Err(e);
        },
        Ok(v) => v,
    };
    let mut b = match handle_vtable(record, cfg, full_rust_struct_name, vtable_struct_name.as_str())
        {
        Err(e) => {
            return Err(e);
        },
        Ok(v) => v,
    };
    lines.append(&mut b);
    let mut c = match handle_spi_output_enum(record, cfg, full_rust_struct_name) {
        Err(e) => {
            return Err(e);
        },
        Ok(v) => v,
    };
    lines.append(&mut c);
    let mut d = match handle_output_enum_struct(record, cfg) {
        Err(e) => {
            return Err(e);
        },
        Ok(v) => v,
    };
    lines.append(&mut d);
    let mut st = match handle_static_table(record, cfg, full_rust_struct_name) {
        Err(e) => {
            return Err(e);
        },
        Ok(v) => v,
    };
    lines.append(&mut st);
    let mut cf = match handle_c_fn(record, cfg) {
        Err(e) => {
            return Err(e);
        },
        Ok(v) => v,
    };
    lines.append(&mut cf);
    lines.push(
        handle_fat_spi(
            full_rust_struct_name,
            vtable_struct_name.as_str(),
            full_trait_name.as_str(),
        ),
    );
    let out_name = cat2(full_rust_struct_name, "Output");
    lines.push(handle_spi_stream_code(full_rust_struct_name, out_name.as_str()));
    proof {
        let sp = spec_spi_record_lines(*record, *cfg, full_rust_struct_name@);
        assert(sp matches Ok(ls) && line_views(lines@) =~= ls);
    }
    Ok(lines)
}

/// The outbound wrapper block: one safe wrapper method per native method of
/// the outbound API, inside one impl block.
pub open spec fn spec_api_record_lines(
    r: RecordDecl,
    cfg: HandlerConfigs,
    full: Seq<char>,
) -> Result<Seq<Seq<char>>, GenError> {
    match spec_record_pass(
        r.children@,
        0,
        HandlerConfigs { method_flavor: MethodFlavor::ApiTrait, ..cfg },
    ) {
        Err(e) => Err(e),
        Ok((ls, _)) => Ok(seq!["impl "@ + full + " {\n"@] + ls + seq!["}\n"@]),
    }
}

/// Assembles the outbound wrapper block of the active-API record.
pub fn handle_api_record(
    record: &RecordDecl,
    cfg: &HandlerConfigs,
    full_rust_struct_name: &str,
) -> (r: Result<Vec<String>, GenError>)
    ensures
        ({
            let sp = spec_api_record_lines(*record, *cfg, full_rust_struct_name@);
            match r {
                Ok(v) => sp matches Ok(ls) && line_views(v@) == ls,
                Err(e) => sp == Err::<Seq<Seq<char>>, GenError>(e),
            }
        }),
{
    let mut lines: Vec<String> = Vec::new();
    lines.push(cat3("impl ", full_rust_struct_name, " {\n"));
    let mut sub = match method_pass(record, cfg, MethodFlavor::ApiTrait) {
        Err(e) => {
            return Err(e);
        },
        Ok(v) => v,
    };
    lines.append(&mut sub);
    lines.push(String::from_str("}\n"));
    proof {
        let sp = spec_api_record_lines(*record, *cfg, full_rust_struct_name@);
        assert(sp matches Ok(ls) && line_views(lines@) =~= ls);
    }
    Ok(lines)
}

/// What one record contributes: the callback bundle when the record is the
/// known callback contract and the SPI flavor is active, the outbound wrapper
/// block when it is the known active-API type under the API flavor, a comment
/// otherwise. The record's display name is recorded in the configuration for
/// every later pass.
pub open spec fn spec_record_lines(r: RecordDecl, cfg: HandlerConfigs) -> Result<
    (Seq<Seq<char>>, HandlerConfigs),
    GenError,
> {
    let cfg1 = HandlerConfigs { record_name: r.name, ..cfg };
    let full = full_name_view(r.path@);
    match cfg.record_flavor {
        RecordFlavor::SPI => if full == "YDListener"@ {
            match spec_spi_record_lines(r, cfg1, full) {
                Err(e) => Err(e),
                Ok(ls) => Ok((ls, cfg1)),
            }
        } else {
            Ok((Seq::empty(), cfg1))
        },
        RecordFlavor::API => if full == "YDApi"@ {
            match spec_api_record_lines(r, cfg1, full) {
                Err(e) => Err(e),
                Ok(ls) => Ok((ls, cfg1)),
            }
        } else {
            Ok((Seq::empty(), cfg1))
        },
        RecordFlavor::LogOnly => Ok((seq!["\n// Record: "@ + r.name@ + "\n"@], cfg1)),
    }
}

/// Dispatches one record to the treatment its flavor and name select.
pub fn handle_record(record: &RecordDecl, cfg: &mut HandlerConfigs) -> (r: Result<
    Vec<String>,
    GenError,
>)
    ensures
        ({
            let sp = spec_record_lines(*record, *old(cfg));
            match r {
                Ok(v) => sp matches Ok(o) && line_views(v@) == o.0 && *final(cfg) == o.1,
                Err(e) => sp == Err::<(Seq<Seq<char>>, HandlerConfigs), GenError>(e),
            }
        }),
{
    let ghost cfg_entry = *cfg;
    cfg.record_name = record.name.clone();
    let full_rust_struct_name = get_full_name_of_entity(&record.path);
    match cfg.record_flavor {
        RecordFlavor::SPI => {
            if str_eq(full_rust_struct_name.as_str(), "YDListener") {
                handle_spi_record(record, cfg, full_rust_struct_name.as_str())
            } else {
                let v: Vec<String> = Vec::new();
                proof {
                    assert(line_views(v@) =~= Seq::<Seq<char>>::empty());
                }
                Ok(v)
            }
        },
        RecordFlavor::API => {
            if str_eq(full_rust_struct_name.as_str(), "YDApi") {
                handle_api_record(record, cfg, full_rust_struct_name.as_str())
            } else {
                let v: Vec<String> = Vec::new();
                proof {
                    assert(line_views(v@) =~= Seq::<Seq<char>>::empty());
                }
                Ok(v)
            }
        },
        RecordFlavor::LogOnly => {
            let mut v: Vec<String> = Vec::new();
            v.push(cat3("\n// Record: ", record.name.as_str(), "\n"));
            proof {
                let sp = spec_record_lines(*record, cfg_entry);
                assert(sp matches Ok(o) && line_views(v@) =~= o.0);
            }
            Ok(v)
        },
    }
}

/// How many record children stand among the first `i` children of the
/// translation unit.
pub open spec fn records_before(children: Seq<TopDecl>, i: int) -> int
    decreases i,
{
    if i <= 0 {
        0
    } else {
        records_before(children, i - 1) + if children[i - 1] is Record {
            1int
        } else {
            0int
        }
    }
}

pub proof fn lemma_records_before_bound(children: Seq<TopDecl>, i: int)
    requires
        0 <= i <= children.len(),
    ensures
        0 <= records_before(children, i) <= i,
    decreases i,
{
    if i > 0 {
        lemma_records_before_bound(children, i - 1);
    }
}

fn count_record_children(children: &Vec<TopDecl>) -> (r: usize)
    ensures
        r == records_before(children@, children@.len() as int),
{
    let mut count: usize = 0;
    let mut i: usize = 0;
    while i < children.len()
        invariant
            i <= children@.len(),
            count == records_before(children@, i as int),
            count <= i,
        decreases children@.len() - i,
    {
        match &children[i] {
            TopDecl::Record(_) => {
                count = count + 1;
            },
            TopDecl::Other { .. } => {},
        }
        i = i + 1;
    }
    count
}

fn count_record_children_before(children: &Vec<TopDecl>, pos: usize) -> (r: usize)
    requires
        pos <= children@.len(),
    ensures
        r == records_before(children@, pos as int),
{
    let mut count: usize = 0;
    let mut i: usize = 0;
    while i < pos
        invariant
            i <= pos <= children@.len(),
            count == records_before(children@, i as int),
            count <= i,
        decreases pos - i,
    {
        match &children[i] {
            TopDecl::Record(_) => {
                count = count + 1;
            },
            TopDecl::Other { .. } => {},
        }
        i = i + 1;
    }
    count
}

/// The record pass over the translation unit's children: every record child
/// visited in declaration order, the configuration threaded through (each
/// record stamps its display name into it).
pub open spec fn spec_tu_pass(children: Seq<TopDecl>, i: int, cfg: HandlerConfigs) -> Result<
    (Seq<Seq<char>>, HandlerConfigs),
    GenError,
>
    decreases children.len() - i,
{
    if i < 0 || i >= children.len() {
        Ok((Seq::empty(), cfg))
    } else {
        match children[i] {
            TopDecl::Other { .. } => spec_tu_pass(children, i + 1, cfg),
            TopDecl::Record(r) => {
                let cfg1 = HandlerConfigs {
                    num_parent_children_same_handler: records_before(
                        children,
                        children.len() as int,
                    ) as usize,
                    index: records_before(children, i) as usize,
                    ..cfg
                };
                match spec_record_lines(r, cfg1) {
                    Err(e) => Err(e),
                    Ok((ls, cfg2)) => match spec_tu_pass(children, i + 1, cfg2) {
                        Err(e) => Err(e),
                        Ok((rest, cfgf)) => Ok((ls + rest, cfgf)),
                    },
                }
            },
        }
    }
}

fn tu_pass_from(children: &Vec<TopDecl>, i: usize, cfg: &mut HandlerConfigs) -> (r: Result<
    Vec<String>,
    GenError,
>)
    requires
        i <= children@.len(),
    ensures
        ({
            let sp = spec_tu_pass(children@, i as int, *old(cfg));
            match r {
                Ok(v) => sp matches Ok(o) && line_views(v@) == o.0 && *final(cfg) == o.1,
                Err(e) => sp == Err::<(Seq<Seq<char>>, HandlerConfigs), GenError>(e),
            }
        }),
    decreases children@.len() - i,
{
    if i == children.len() {
        let r: Vec<String> = Vec::new();
        proof {
            assert(line_views(r@) =~= Seq::<Seq<char>>::empty());
        }
        return Ok(r);
    }
    match &children[i] {
        TopDecl::Other { .. } => tu_pass_from(children, i + 1, cfg),
        TopDecl::Record(rec) => {
            let ghost cfg_head = *cfg;
            let total = count_record_children(children);
            let before = count_record_children_before(children, i);
            cfg.num_parent_children_same_handler = total;
            cfg.index = before;
            let ghost cfg1 = *cfg;
            proof {
                lemma_records_before_bound(children@, i as int);
                lemma_records_before_bound(children@, children@.len() as int);
                assert(cfg1 == (HandlerConfigs {
                    num_parent_children_same_handler: records_before(
                        children@,
                        children@.len() as int,
                    ) as usize,
                    index: records_before(children@, i as int) as usize,
                    ..cfg_head
                }));
            }
            match handle_record(rec, cfg) {
                Err(e) => {
                    proof {
                        assert(spec_tu_pass(children@, i as int, cfg_head) == Err::<
                            (Seq<Seq<char>>, HandlerConfigs),
                            GenError,
                        >(e));
                    }
                    Err(e)
                },
                Ok(mut v) => {
                    match tu_pass_from(children, i + 1, cfg) {
                        Err(e) => {
                            proof {
                                assert(spec_tu_pass(children@, i as int, cfg_head) == Err::<
                                    (Seq<Seq<char>>, HandlerConfigs),
                                    GenError,
                                >(e));
                            }
                            Err(e)
                        },
                        Ok(mut rest) => {
                            proof {
                                crate::text::lemma_line_views_app(v@, rest@);
                            }
                            v.append(&mut rest);
                            Ok(v)
                        },
                    }
                },
            }
        },
    }
}

/// The shape of the configuration at the top of a generation run: every
/// flavor at its placeholder except the record flavor, nothing inherited.
/// The initial record name is left free: every record overwrites it before
/// it is read, and the congruence lemma below shows the output ignores it.
pub open spec fn is_root_config(c: HandlerConfigs, rf: RecordFlavor) -> bool {
    &&& c.method_flavor is LogOnly
    &&& c.parameter_flavor is LogOnly
    &&& c.record_flavor == rf
    &&& c.life_time is Blank
    &&& !c.life_time_on_children
    &&& !c.prefer_pointer
    &&& c.index == 0
    &&& c.num_parent_children_same_handler == 0
    &&& !c.debug
}

/// The canonical root configuration of a generation run.
pub open spec fn root_config(rf: RecordFlavor) -> HandlerConfigs {
    choose|c: HandlerConfigs| is_root_config(c, rf)
}

/// The record pass reads the initial record name of its configuration
/// nowhere: two runs whose configurations differ at most there emit the same
/// fragments and fail with the same diagnostic.
pub proof fn lemma_tu_pass_record_name_irrelevant(
    children: Seq<TopDecl>,
    i: int,
    a: HandlerConfigs,
    b: HandlerConfigs,
)
    requires
        b == (HandlerConfigs { record_name: b.record_name, ..a }),
    ensures
        ({
            let ra = spec_tu_pass(children, i, a);
            let rb = spec_tu_pass(children, i, b);
            match (ra, rb) {
                (Ok(x), Ok(y)) => x.0 == y.0,
                (Err(e1), Err(e2)) => e1 == e2,
                _ => false,
            }
        }),
    decreases children.len() - i,
{
    if i < 0 || i >= children.len() {
    } else {
        match children[i] {
            TopDecl::Other { .. } => {
                lemma_tu_pass_record_name_irrelevant(children, i + 1, a, b);
            },
            TopDecl::Record(r) => {
                let cfg1a = HandlerConfigs {
                    num_parent_children_same_handler: records_before(
                        children,
                        children.len() as int,
                    ) as usize,
                    index: records_before(children, i) as usize,
                    ..a
                };
                let cfg1b = HandlerConfigs {
                    num_parent_children_same_handler: records_before(
                        children,
                        children.len() as int,
                    ) as usize,
                    index: records_before(children, i) as usize,
                    ..b
                };
                let stamped_a = HandlerConfigs { record_name: r.name, ..cfg1a };
                let stamped_b = HandlerConfigs { record_name: r.name, ..cfg1b };
                assert(stamped_a == stamped_b);
                match spec_record_lines(r, cfg1a) {
                    Err(_) => {
                        assert(spec_record_lines(r, cfg1b) == spec_record_lines(r, cfg1a));
                    },
                    Ok((_, cfg2a)) => {
                        assert(spec_record_lines(r, cfg1b) == spec_record_lines(r, cfg1a));
                        lemma_tu_pass_record_name_irrelevant(children, i + 1, cfg2a, cfg2a);
                    },
                }
            },
        }
    }
}

/// The full outbound-wrapper artifact: the import header followed by the
/// record pass under the API flavor, as a function of the declaration tree
/// alone.
pub open spec fn spec_generate_api_wrapper(tu: TranslationUnit) -> Result<Seq<Seq<char>>, GenError> {
    match spec_tu_pass(tu.children@, 0, root_config(RecordFlavor::API)) {
        Err(e) => Err(e),
        Ok((ls, _)) => Ok(seq!["use crate::bindings::YDApi;\n\n"@] + ls),
    }
}

/// The full callback-bridge artifact: the record pass under the SPI flavor,
/// as a function of the declaration tree alone.
pub open spec fn spec_generate_spi_wrapper(tu: TranslationUnit) -> Result<Seq<Seq<char>>, GenError> {
    match spec_tu_pass(tu.children@, 0, root_config(RecordFlavor::SPI)) {
        Err(e) => Err(e),
        Ok((ls, _)) => Ok(ls),
    }
}

/// Generates the outbound-wrapper source text, as fragments.
pub fn generate_api_wrapper(tu: &TranslationUnit) -> (r: Result<Vec<String>, GenError>)
    ensures
        ({
            let sp = spec_generate_api_wrapper(*tu);
            match r {
                Ok(v) => sp matches Ok(ls) && line_views(v@) == ls,
                Err(e) => sp == Err::<Seq<Seq<char>>, GenError>(e),
            }
        }),
{
    let mut cfg = HandlerConfigs::default();
    cfg.record_flavor = RecordFlavor::API;
    proof {
        assert(is_root_config(cfg, RecordFlavor::API));
        assert(is_root_config(root_config(RecordFlavor::API), RecordFlavor::API)) by {
            assert(exists|c: HandlerConfigs| is_root_config(c, RecordFlavor::API)) by {
                assert(is_root_config(cfg, RecordFlavor::API));
            }
        }
        assert(root_config(RecordFlavor::API) == (HandlerConfigs {
            record_name: root_config(RecordFlavor::API).record_name,
            ..cfg
        }));
        lemma_tu_pass_record_name_irrelevant(
            tu.children@,
            0,
            cfg,
            root_config(RecordFlavor::API),
        );
    }
    let mut lines: Vec<String> = Vec::new();
    lines.push(String::from_str("use crate::bindings::YDApi;\n\n"));
    match tu_pass_from(&tu.children, 0, &mut cfg) {
        Err(e) => Err(e),
        Ok(mut rest) => {
            proof {
                crate::text::lemma_line_views_app(lines@, rest@);
            }
            lines.append(&mut rest);
            proof {
                let sp = spec_generate_api_wrapper(*tu);
                assert(sp matches Ok(ls) && line_views(lines@) =~= ls);
            }
            Ok(lines)
        },
    }
}

/// Generates the callback-bridge source text, as fragments.
pub fn generate_spi_wrapper(tu: &TranslationUnit) -> (r: Result<Vec<String>, GenError>)
    ensures
        ({
            let sp = spec_generate_spi_wrapper(*tu);
            match r {
                Ok(v) => sp matches Ok(ls) && line_views(v@) == ls,
                Err(e) => sp == Err::<Seq<Seq<char>>, GenError>(e),
            }
        }),
{
    let mut cfg = HandlerConfigs::default();
    cfg.record_flavor = RecordFlavor::SPI;
    proof {
        assert(is_root_config(cfg, RecordFlavor::SPI));
        assert(is_root_config(root_config(RecordFlavor::SPI), RecordFlavor::SPI)) by {
            assert(exists|c: HandlerConfigs| is_root_config(c, RecordFlavor::SPI)) by {
                assert(is_root_config(cfg, RecordFlavor::SPI));
            }
        }
        assert(root_config(RecordFlavor::SPI) == (HandlerConfigs {
            record_name: root_config(RecordFlavor::SPI).record_name,
            ..cfg
        }));
        lemma_tu_pass_record_name_irrelevant(
            tu.children@,
            0,
            cfg,
            root_config(RecordFlavor::SPI),
        );
    }
    match tu_pass_from(&tu.children, 0, &mut cfg) {
        Err(e) => Err(e),
        Ok(v) => {
            proof {
                let sp = spec_generate_spi_wrapper(*tu);
                assert(sp matches Ok(ls) && line_views(v@) =~= ls);
            }
            Ok(v)
        },
    }
}

/// The generated method identifiers of a record's same-handler children from
/// position `i` on, in declaration order.
pub open spec fn method_idents_from(children: Seq<RecordChild>, i: int) -> Seq<Seq<char>>
    decreases children.len() - i,
{
    if i < 0 || i >= children.len() {
        Seq::empty()
    } else {
        match children[i] {
            RecordChild::Other { .. } => method_idents_from(children, i + 1),
            RecordChild::Method(mm) => seq![
                crate::names::method_ident_view(
                    mm.name@,
                    crate::methods::spec_prior_count(children, mm.name@, i) as nat,
                ),
            ] + method_idents_from(children, i + 1),
        }
    }
}

/// The per-method fragment groups of the dispatch-table pass from position
/// `i` on, in declaration order, with the configuration threaded as the pass
/// threads it.
pub open spec fn vtable_entries_from(
    children: Seq<RecordChild>,
    i: int,
    cfg: HandlerConfigs,
) -> Seq<Seq<Seq<char>>>
    decreases children.len() - i,
{
    if i < 0 || i >= children.len() {
        Seq::empty()
    } else {
        match children[i] {
            RecordChild::Other { .. } => vtable_entries_from(children, i + 1, cfg),
            RecordChild::Method(mm) => {
                let cfg1 = HandlerConfigs {
                    num_parent_children_same_handler: methods_before(
                        children,
                        children.len() as int,
                    ) as usize,
                    index: methods_before(children, i) as usize,
                    ..cfg
                };
                match spec_prototype(mm, children, i, cfg1) {
                    Err(_) => Seq::empty(),
                    Ok((ls, cfg2)) => seq![ls] + vtable_entries_from(children, i + 1, cfg2),
                }
            },
        }
    }
}

/// The first fragment of a dispatch-table field: its generated identifier
/// with the canonical native call signature opened after it.
pub open spec fn vtable_head_view(ident: Seq<char>, record_name: Seq<char>) -> Seq<char> {
    "    "@ + ident + ": extern \"C\" fn(spi: *mut "@ + record_name + "Fat"@
}

/// The ABI invariant of the dispatch table: the table pass emits one
/// fragment group per method child, in native declaration order, and the
/// head fragment of the group at position `k` names exactly the `k`-th
/// method's generated identifier. The native library indexes into the table
/// positionally, so this order is the central invariant of the generator.
pub proof fn lemma_vtable_order_from(children: Seq<RecordChild>, i: int, cfg: HandlerConfigs)
    requires
        cfg.method_flavor is VTableStruct,
        0 <= i,
        spec_record_pass(children, i, cfg) is Ok,
    ensures
        ({
            let ents = vtable_entries_from(children, i, cfg);
            let ids = method_idents_from(children, i);
            &&& spec_record_pass(children, i, cfg)->Ok_0.0 == ents.flatten()
            &&& ents.len() == ids.len()
            &&& forall|k: int|
                0 <= k < ents.len() ==> (#[trigger] ents[k]).len() >= 1 && ents[k][0]
                    == vtable_head_view(ids[k], cfg.record_name@)
        }),
    decreases children.len() - i,
{
    let ents = vtable_entries_from(children, i, cfg);
    let ids = method_idents_from(children, i);
    if i >= children.len() {
        assert(spec_record_pass(children, i, cfg)->Ok_0.0 =~= ents.flatten());
    } else {
        match children[i] {
            RecordChild::Other { .. } => {
                lemma_vtable_order_from(children, i + 1, cfg);
            },
            RecordChild::Method(mm) => {
                let cfg1 = HandlerConfigs {
                    num_parent_children_same_handler: methods_before(
                        children,
                        children.len() as int,
                    ) as usize,
                    index: methods_before(children, i) as usize,
                    ..cfg
                };
                let (ls, cfg2) = spec_prototype(mm, children, i, cfg1)->Ok_0;
                assert(cfg2 == cfg1);
                lemma_vtable_order_from(children, i + 1, cfg1);
                let rest_ents = vtable_entries_from(children, i + 1, cfg1);
                let rest_ids = method_idents_from(children, i + 1);
                assert(ents == seq![ls] + rest_ents);
                assert(ids == seq![
                    crate::names::method_ident_view(
                        mm.name@,
                        crate::methods::spec_prior_count(children, mm.name@, i) as nat,
                    ),
                ] + rest_ids);
                assert(ents.flatten() == ls + rest_ents.flatten()) by {
                    assert(ents.len() > 0);
                    assert(ents.first() == ls);
                    assert(ents.drop_first() =~= rest_ents);
                }
                assert(ls[0] == vtable_head_view(ids[0], cfg.record_name@));
                assert(spec_record_pass(children, i, cfg)->Ok_0.0 == ents.flatten());
                assert forall|k: int| 0 <= k < ents.len() implies (#[trigger] ents[k]).len() >= 1
                    && ents[k][0] == vtable_head_view(ids[k], cfg.record_name@) by {
                    if k > 0 {
                        assert(ents[k] == rest_ents[k - 1]);
                        assert(ids[k] == rest_ids[k - 1]);
                    }
                }
            },
        }
    }
}

/// Dispatch-table field order equals native declaration order, for every
/// callback method of a record: stated over the whole table pass of the
/// record, starting at its first child.
pub proof fn lemma_vtable_fields_in_declaration_order(r: RecordDecl, cfg: HandlerConfigs)
    requires
        cfg.method_flavor is VTableStruct,
        spec_record_pass(r.children@, 0, cfg) is Ok,
    ensures
        ({
            let ents = vtable_entries_from(r.children@, 0, cfg);
            let ids = method_idents_from(r.children@, 0);
            &&& spec_record_pass(r.children@, 0, cfg)->Ok_0.0 == ents.flatten()
            &&& ents.len() == ids.len()
            &&& forall|k: int|
                0 <= k < ents.len() ==> (#[trigger] ents[k]).len() >= 1 && ents[k][0]
                    == vtable_head_view(ids[k], cfg.record_name@)
        }),
{
    lemma_vtable_order_from(r.children@, 0, cfg);
}

/// Whether every parameter of every method of a record has a mapping.
pub open spec fn record_all_mappable(r: RecordDecl) -> bool {
    forall|j: int|
        0 <= j < r.children@.len() && r.children@[j] is Method
            ==> crate::methods::method_all_mappable((#[trigger] r.children@[j])->Method_0)
}

/// Whether a record survives the treatment its flavor selects: records the
/// generator does not process never abort; the processed ones demand a
/// mapping for every parameter.
pub open spec fn record_processed_ok(r: RecordDecl, rf: RecordFlavor) -> bool {
    match rf {
        RecordFlavor::SPI => full_name_view(r.path@) == "YDListener"@ ==> record_all_mappable(r),
        RecordFlavor::API => full_name_view(r.path@) == "YDApi"@ ==> record_all_mappable(r),
        RecordFlavor::LogOnly => true,
    }
}

/// A method pass over a record succeeds exactly when every visited method
/// has only mappable parameters, whatever the flavor in its configuration.
pub proof fn lemma_record_pass_ok_iff(children: Seq<RecordChild>, i: int, cfg: HandlerConfigs)
    requires
        0 <= i,
    ensures
        spec_record_pass(children, i, cfg) is Ok <==> (forall|j: int|
            i <= j < children.len() && children[j] is Method
                ==> crate::methods::method_all_mappable((#[trigger] children[j])->Method_0)),
    decreases children.len() - i,
{
    if i >= children.len() {
    } else {
        match children[i] {
            RecordChild::Other { .. } => {
                lemma_record_pass_ok_iff(children, i + 1, cfg);
            },
            RecordChild::Method(mm) => {
                let cfg1 = HandlerConfigs {
                    num_parent_children_same_handler: methods_before(
                        children,
                        children.len() as int,
                    ) as usize,
                    index: methods_before(children, i) as usize,
                    ..cfg
                };
                crate::methods::lemma_prototype_ok_iff(mm, children, i, cfg1);
                match spec_prototype(mm, children, i, cfg1) {
                    Err(_) => {
                        assert(!crate::methods::method_all_mappable(mm));
                    },
                    Ok((_, cfg2)) => {
                        lemma_record_pass_ok_iff(children, i + 1, cfg2);
                    },
                }
            },
        }
    }
}

/// The callback bundle of a record assembles exactly when every parameter of
/// every method has a mapping.
pub proof fn lemma_spi_record_ok_iff(r: RecordDecl, cfg: HandlerConfigs, full: Seq<char>)
    ensures
        spec_spi_record_lines(r, cfg, full) is Ok <==> record_all_mappable(r),
{
    lemma_record_pass_ok_iff(
        r.children@,
        0,
        HandlerConfigs { method_flavor: MethodFlavor::SpiTrait, ..cfg },
    );
    lemma_record_pass_ok_iff(
        r.children@,
        0,
        HandlerConfigs { method_flavor: MethodFlavor::VTableStruct, ..cfg },
    );
    lemma_record_pass_ok_iff(
        r.children@,
        0,
        HandlerConfigs { method_flavor: MethodFlavor::OutputEnum, ..cfg },
    );
    lemma_record_pass_ok_iff(
        r.children@,
        0,
        HandlerConfigs { method_flavor: MethodFlavor::OutputEnumStruct, ..cfg },
    );
    lemma_record_pass_ok_iff(
        r.children@,
        0,
        HandlerConfigs { method_flavor: MethodFlavor::StaticTable, ..cfg },
    );
    lemma_record_pass_ok_iff(
        r.children@,
        0,
        HandlerConfigs { method_flavor: MethodFlavor::CFn, ..cfg },
    );
}

/// The outbound wrapper block of a record assembles exactly when every
/// parameter of every method has a mapping.
pub proof fn lemma_api_record_ok_iff(r: RecordDecl, cfg: HandlerConfigs, full: Seq<char>)
    ensures
        spec_api_record_lines(r, cfg, full) is Ok <==> record_all_mappable(r),
{
    lemma_record_pass_ok_iff(
        r.children@,
        0,
        HandlerConfigs { method_flavor: MethodFlavor::ApiTrait, ..cfg },
    );
}

/// One record's treatment succeeds exactly when `record_processed_ok` says
/// so for the active record flavor.
pub proof fn lemma_record_lines_ok_iff(r: RecordDecl, cfg: HandlerConfigs)
    ensures
        spec_record_lines(r, cfg) is Ok <==> record_processed_ok(r, cfg.record_flavor),
{
    let cfg1 = HandlerConfigs { record_name: r.name, ..cfg };
    let full = full_name_view(r.path@);
    match cfg.record_flavor {
        RecordFlavor::SPI => {
            if full == "YDListener"@ {
                lemma_spi_record_ok_iff(r, cfg1, full);
            }
        },
        RecordFlavor::API => {
            if full == "YDApi"@ {
                lemma_api_record_ok_iff(r, cfg1, full);
            }
        },
        RecordFlavor::LogOnly => {},
    }
}

/// Whether every record the active flavor would process survives.
pub open spec fn tu_all_processed_ok(tu: TranslationUnit, rf: RecordFlavor) -> bool {
    forall|j: int|
        0 <= j < tu.children@.len() && tu.children@[j] is Record ==> record_processed_ok(
            (#[trigger] tu.children@[j])->Record_0,
            rf,
        )
}

#[verifier::rlimit(100)]
proof fn lemma_tu_pass_ok_iff(children: Seq<TopDecl>, i: int, cfg: HandlerConfigs)
    requires
        0 <= i,
    ensures
        spec_tu_pass(children, i, cfg) is Ok <==> (forall|j: int|
            i <= j < children.len() && children[j] is Record ==> record_processed_ok(
                (#[trigger] children[j])->Record_0,
                cfg.record_flavor,
            )),
    decreases children.len() - i,
{
    if i >= children.len() {
    } else {
        match children[i] {
            TopDecl::Other { .. } => {
                lemma_tu_pass_ok_iff(children, i + 1, cfg);
            },
            TopDecl::Record(r) => {
                let cfg1 = HandlerConfigs {
                    num_parent_children_same_handler: records_before(
                        children,
                        children.len() as int,
                    ) as usize,
                    index: records_before(children, i) as usize,
                    ..cfg
                };
                lemma_record_lines_ok_iff(r, cfg1);
                match spec_record_lines(r, cfg1) {
                    Err(_) => {},
                    Ok((_, cfg2)) => {
                        assert(cfg2.record_flavor == cfg.record_flavor);
                        lemma_tu_pass_ok_iff(children, i + 1, cfg2);
                    },
                }
            },
        }
    }
}

proof fn lemma_root_config_exists(rf: RecordFlavor)
    ensures
        is_root_config(root_config(rf), rf),
{
    let w = HandlerConfigs {
        method_flavor: MethodFlavor::LogOnly,
        parameter_flavor: ParameterFlavor::LogOnly,
        record_flavor: rf,
        record_name: vstd::pervasive::arbitrary(),
        life_time: LifetimeMark::Blank,
        life_time_on_children: false,
        prefer_pointer: false,
        index: 0,
        num_parent_children_same_handler: 0,
        debug: false,
    };
    assert(is_root_config(w, rf));
    assert(exists|c: HandlerConfigs| is_root_config(c, rf));
}

/// When success is owed: generating the callback bridge succeeds exactly
/// when every parameter of every method of the processed callback record has
/// a mapping; an unrecognized parameter type anywhere in that record aborts
/// the whole run.
pub proof fn lemma_generate_spi_ok_iff(tu: TranslationUnit)
    ensures
        spec_generate_spi_wrapper(tu) is Ok <==> tu_all_processed_ok(tu, RecordFlavor::SPI),
{
    lemma_root_config_exists(RecordFlavor::SPI);
    lemma_tu_pass_ok_iff(tu.children@, 0, root_config(RecordFlavor::SPI));
}

/// When success is owed: generating the outbound wrappers succeeds exactly
/// when every parameter of every method of the processed active-API record
/// has a mapping.
pub proof fn lemma_generate_api_ok_iff(tu: TranslationUnit)
    ensures
        spec_generate_api_wrapper(tu) is Ok <==> tu_all_processed_ok(tu, RecordFlavor::API),
{
    lemma_root_config_exists(RecordFlavor::API);
    lemma_tu_pass_ok_iff(tu.children@, 0, root_config(RecordFlavor::API));
}

/// Regenerating from an unchanged declaration tree produces identical
/// fragments, and so byte-identical rendered output: both generators are
/// functions of the declaration tree alone.
pub proof fn lemma_generation_idempotent(a: TranslationUnit, b: TranslationUnit)
    requires
        a == b,
    ensures
        spec_generate_api_wrapper(a) == spec_generate_api_wrapper(b),
        spec_generate_spi_wrapper(a) == spec_generate_spi_wrapper(b),
{
}

} // verus!
