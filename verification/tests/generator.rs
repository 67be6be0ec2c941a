//! End-to-end generation scenarios over small declaration trees: the
//! callback bundle, the outbound wrappers, overload numbering, destructor
//! skipping, ordering, idempotence and abort diagnostics.

use yd_client_sys::config::{HandlerConfigs, MethodFlavor, RecordFlavor};
use yd_client_sys::errors::GenError;
use yd_client_sys::model::{
    MethodChild, MethodDecl, ParamDecl, PtrDesc, RecordChild, RecordDecl, TopDecl,
    TranslationUnit, TypeDesc,
};
use yd_client_sys::records::{
    generate_api_wrapper, generate_spi_wrapper, handle_record, handle_spi_fn, process_children,
};
use yd_client_sys::text::render;

fn param(name: &str, ty: TypeDesc) -> MethodChild {
    MethodChild::Param(ParamDecl {
        name: name.to_string(),
        ty,
    })
}

fn method(name: &str, result_type: &str, params: Vec<MethodChild>) -> RecordChild {
    RecordChild::Method(MethodDecl {
        name: name.to_string(),
        result_type: result_type.to_string(),
        children: params,
    })
}

fn record(name: &str, children: Vec<RecordChild>) -> RecordDecl {
    RecordDecl {
        name: name.to_string(),
        path: vec![name.to_string()],
        children,
    }
}

fn listener_tree() -> TranslationUnit {
    TranslationUnit {
        children: vec![TopDecl::Record(record(
            "YDListener",
            vec![
                method(
                    "notifyLogin",
                    "void",
                    vec![
                        param("errorNo", TypeDesc::Int),
                        param("maxOrderRef", TypeDesc::Int),
                        param("isMonitor", TypeDesc::Bool),
                    ],
                ),
                method("notifyReadyForLogin", "void", vec![param("hasLoginFailed", TypeDesc::Bool)]),
            ],
        ))],
    }
}

fn api_tree() -> TranslationUnit {
    TranslationUnit {
        children: vec![TopDecl::Record(record(
            "YDApi",
            vec![
                method(
                    "login",
                    "bool",
                    vec![
                        param("user", TypeDesc::Pointer { pointee: PtrDesc::Char }),
                        param("pass", TypeDesc::Pointer { pointee: PtrDesc::Char }),
                        param("appId", TypeDesc::Pointer { pointee: PtrDesc::Char }),
                        param("authCode", TypeDesc::Pointer { pointee: PtrDesc::Char }),
                    ],
                ),
                method("insertOrder", "bool", vec![param("flag", TypeDesc::Bool)]),
                method("insertOrder", "bool", vec![param("flag", TypeDesc::Bool)]),
            ],
        ))],
    }
}

#[test]
fn callback_method_yields_event_variant_and_payload() {
    let lines = generate_spi_wrapper(&listener_tree()).unwrap();
    let text = render(&lines);
    // The event variant carries the pascal-cased name and its payload type.
    assert!(text.contains("    NotifyLogin(YDListenerNotifyLoginPacket),\n"));
    // The payload struct holds one snake-cased field per marshaled argument.
    assert!(text.contains("pub struct YDListenerNotifyLoginPacket {\n"));
    assert!(text.contains("    pub error_no: std::os::raw::c_int,\n"));
    assert!(text.contains("    pub max_order_ref: std::os::raw::c_int,\n"));
    assert!(text.contains("    pub is_monitor: bool,\n"));
}

#[test]
fn trampoline_builds_and_pushes_exactly_the_payload() {
    // The trampoline receives the fat pointer and forwards into the bridge.
    let lines = generate_spi_wrapper(&listener_tree()).unwrap();
    let text = render(&lines);
    assert!(text.contains(
        "extern \"C\" fn spi_notify_login(spi: *mut YDListenerFat, error_no: std::os::raw::c_int, max_order_ref: std::os::raw::c_int, is_monitor: bool)"
    ));
    assert!(text.contains("        assert!(!spi.is_null());"));
    assert!(text.contains("        (*(*spi).md_spi_ptr).notify_login(error_no, max_order_ref, is_monitor)"));
    // The bridge impl pushes the tagged event built from those arguments.
    let tree = listener_tree();
    let rec = match &tree.children[0] {
        TopDecl::Record(r) => r.clone(),
        _ => unreachable!(),
    };
    let mut cfg = HandlerConfigs::default();
    cfg.record_name = "YDListener".to_string();
    let push_lines =
        handle_spi_fn(&rec, &cfg, "YDListener_trait", "YDListener").unwrap();
    let push_text = render(&push_lines);
    assert!(push_text.contains("impl YDListener_trait for YDListenerStream {"));
    assert!(push_text.contains(
        "    fn notify_login(&mut self, error_no: std::os::raw::c_int, max_order_ref: std::os::raw::c_int, is_monitor: bool) {\n        self.inner.lock().unwrap().push("
    ));
    assert!(push_text.contains("YDListenerOutput::NotifyLogin(YDListenerNotifyLoginPacket {\n"));
    assert!(push_text.contains("            error_no: error_no,\n"));
    assert!(push_text.contains("            max_order_ref: max_order_ref,\n"));
    assert!(push_text.contains("            is_monitor: is_monitor,\n"));
}

#[test]
fn dispatch_table_field_order_equals_declaration_order() {
    let lines = generate_spi_wrapper(&listener_tree()).unwrap();
    let text = render(&lines);
    assert!(text.contains("#[repr(C)]\n#[derive(Debug)]\nstruct YDListenerVTable {"));
    let first = text.find("    notify_login: extern \"C\" fn(spi: *mut YDListenerFat").unwrap();
    let second = text
        .find("    notify_ready_for_login: extern \"C\" fn(spi: *mut YDListenerFat")
        .unwrap();
    assert!(first < second);
    // The static table instance lists its entries in the same order.
    let e1 = text.find("    notify_login: spi_notify_login,\n").unwrap();
    let e2 = text
        .find("    notify_ready_for_login: spi_notify_ready_for_login,\n")
        .unwrap();
    assert!(e1 < e2);
}

#[test]
fn bridge_bundle_is_complete() {
    let lines = generate_spi_wrapper(&listener_tree()).unwrap();
    let text = render(&lines);
    assert!(text.contains("pub trait YDListener_trait: Send {"));
    assert!(text.contains("    fn notify_login(&mut self, error_no: std::os::raw::c_int, max_order_ref: std::os::raw::c_int, is_monitor: bool) {}\n"));
    assert!(text.contains("static YD_LISTENER_VTABLE: YDListenerVTable = YDListenerVTable {"));
    assert!(text.contains("pub struct YDListenerFat {\n  vtable: *const YDListenerVTable,\n  pub md_spi_ptr: *mut dyn YDListener_trait,\n}"));
    assert!(text.contains("pub struct YDListenerStream {"));
    assert!(text.contains("pub fn create_spi() -> (Box<YDListenerStream>, *mut YDListenerStream)"));
}

#[test]
fn overload_siblings_get_deterministic_suffixes() {
    let lines = generate_api_wrapper(&api_tree()).unwrap();
    let text = render(&lines);
    assert!(text.contains("    pub fn insert_order(&mut self, flag: bool)"));
    assert!(text.contains("    pub fn insert_order1(&mut self, flag: bool)"));
    assert!(text.contains("((*(*self).vtable_).YDApi_insertOrder)(self as *mut YDApi, flag)"));
    assert!(text.contains("((*(*self).vtable_).YDApi_insertOrder1)(self as *mut YDApi, flag)"));
}

#[test]
fn outbound_string_method_converts_at_call_site() {
    let lines = generate_api_wrapper(&api_tree()).unwrap();
    let text = render(&lines);
    assert!(text.contains(
        "    pub fn login(&mut self, user: std::ffi::CString, pass: std::ffi::CString, app_id: std::ffi::CString, auth_code: std::ffi::CString) -> bool {"
    ));
    assert!(text.contains(
        "((*(*self).vtable_).YDApi_login)(self as *mut YDApi, user.as_ptr(), pass.as_ptr(), app_id.as_ptr(), auth_code.as_ptr())"
    ));
}

#[test]
fn destructor_declaration_emits_no_code() {
    let tree = TranslationUnit {
        children: vec![TopDecl::Record(record(
            "YDApi",
            vec![method("~YDApi", "void", vec![])],
        ))],
    };
    let lines = generate_api_wrapper(&tree).unwrap();
    assert_eq!(render(&lines), "use crate::bindings::YDApi;\n\nimpl YDApi {\n}\n");
}

#[test]
fn method_name_id_is_capitalized_in_native_field_name() {
    let tree = TranslationUnit {
        children: vec![TopDecl::Record(record(
            "YDApi",
            vec![method("queryOrderId", "int", vec![])],
        ))],
    };
    let text = render(&generate_api_wrapper(&tree).unwrap());
    assert!(text.contains("    pub fn query_order_id(&mut self) -> std::os::raw::c_int {"));
    assert!(text.contains("((*(*self).vtable_).YDApi_queryOrderID)(self as *mut YDApi)"));
}

#[test]
fn regeneration_from_unchanged_tree_is_byte_identical() {
    let a = render(&generate_spi_wrapper(&listener_tree()).unwrap());
    let b = render(&generate_spi_wrapper(&listener_tree()).unwrap());
    assert_eq!(a, b);
    let c = render(&generate_api_wrapper(&api_tree()).unwrap());
    let d = render(&generate_api_wrapper(&api_tree()).unwrap());
    assert_eq!(c, d);
}

#[test]
fn unrecognized_type_aborts_whole_generation_naming_it() {
    let tree = TranslationUnit {
        children: vec![TopDecl::Record(record(
            "YDListener",
            vec![method(
                "notifyOdd",
                "void",
                vec![param(
                    "payload",
                    TypeDesc::Other {
                        kind: "BlockPointer".to_string(),
                    },
                )],
            )],
        ))],
    };
    let e = generate_spi_wrapper(&tree).unwrap_err();
    match &e {
        GenError::UnhandledParameterType { kind } => assert_eq!(kind, "BlockPointer"),
        other => panic!("wrong error: {:?}", other),
    }
    assert_eq!(e.describe(), "unhandled parameter type: BlockPointer");
}

#[test]
fn records_without_the_known_names_are_skipped() {
    let tree = TranslationUnit {
        children: vec![TopDecl::Record(record(
            "YDHelper",
            vec![method("anything", "void", vec![])],
        ))],
    };
    assert_eq!(render(&generate_spi_wrapper(&tree).unwrap()), "");
    assert_eq!(
        render(&generate_api_wrapper(&tree).unwrap()),
        "use crate::bindings::YDApi;\n\n"
    );
}

#[test]
fn multi_order_methods_are_left_as_comments() {
    let tree = TranslationUnit {
        children: vec![TopDecl::Record(record(
            "YDApi",
            vec![method("insertMultiOrders", "bool", vec![])],
        ))],
    };
    let text = render(&generate_api_wrapper(&tree).unwrap());
    assert!(text.contains("    // insert_multi_orders // Ignored (MethodFlavor::ApiTrait)\n"));
    assert!(!text.contains("pub fn insert_multi_orders"));
}

#[test]
fn start_method_wires_the_fat_pointer() {
    let tree = TranslationUnit {
        children: vec![TopDecl::Record(record(
            "YDApi",
            vec![method("start", "bool", vec![])],
        ))],
    };
    let text = render(&generate_api_wrapper(&tree).unwrap());
    assert!(text.contains("let p_listener = Box::into_raw(Box::new((&YD_LISTENER_VTABLE, p_listener)));"));
    assert!(text.contains("((*(*self).vtable_).YDApi_start)(self as *mut YDApi, p_listener as *mut YDListener)"));
}

#[test]
fn empty_callback_record_still_yields_the_whole_bundle_in_order() {
    let tree = TranslationUnit {
        children: vec![TopDecl::Record(record("YDListener", vec![]))],
    };
    let text = render(&generate_spi_wrapper(&tree).unwrap());
    let head = "pub trait YDListener_trait: Send {}\n#[repr(C)]\n#[derive(Debug)]\nstruct YDListenerVTable {}\n#[derive(Clone, Debug)]\npub enum YDListenerOutput {}\nstatic YD_LISTENER_VTABLE: YDListenerVTable = YDListenerVTable {}\n#[repr(C)]\npub struct YDListenerFat {\n";
    assert!(text.starts_with(head));
    assert!(text.contains("pub fn create_spi()"));
}

#[test]
fn log_flavor_emits_record_comment() {
    let rec = record("YDHelper", vec![]);
    let mut cfg = HandlerConfigs::default();
    let lines = handle_record(&rec, &mut cfg).unwrap();
    assert_eq!(render(&lines), "\n// Record: YDHelper\n");
    assert_eq!(cfg.record_name, "YDHelper");
}

#[test]
fn event_pass_resets_the_lifetime_flag() {
    let rec = record(
        "YDListener",
        vec![method(
            "notifyTrade",
            "void",
            vec![param(
                "trade",
                TypeDesc::Pointer {
                    pointee: PtrDesc::Record {
                        path: vec!["YDTrade".to_string()],
                    },
                },
            )],
        )],
    );
    let mut cfg = HandlerConfigs::default();
    cfg.record_name = "YDListener".to_string();
    cfg.method_flavor = MethodFlavor::OutputEnum;
    let lines = process_children(&rec, &mut cfg).unwrap();
    // The borrowed payload demands a lifetime on the variant's payload type,
    // and the flag is cleared again after the variant is emitted.
    assert_eq!(render(&lines), "    NotifyTrade(YDListenerNotifyTradePacket<'a>),\n");
    assert!(!cfg.life_time_on_children);
}

#[test]
fn payload_struct_borrows_record_arguments() {
    let rec = record(
        "YDListener",
        vec![method(
            "notifyTrade",
            "void",
            vec![param(
                "trade",
                TypeDesc::Pointer {
                    pointee: PtrDesc::Record {
                        path: vec!["YDTrade".to_string()],
                    },
                },
            )],
        )],
    );
    let mut cfg = HandlerConfigs::default();
    cfg.record_name = "YDListener".to_string();
    cfg.method_flavor = MethodFlavor::OutputEnumStruct;
    let lines = process_children(&rec, &mut cfg).unwrap();
    let text = render(&lines);
    assert!(text.contains("pub struct YDListenerNotifyTradePacket<'a> {\n"));
    // A lone field carries no positional separator after it.
    assert!(text.contains("    pub trade: &'a YDTrade\n}\n"));
}

#[test]
fn api_generation_respects_record_flavor() {
    // The SPI pass over an API-only tree emits nothing, and the other way
    // round: dispatch goes by both the flavor and the known record names.
    let api = api_tree();
    assert_eq!(render(&generate_spi_wrapper(&api).unwrap()), "");
    let listener = listener_tree();
    assert_eq!(
        render(&generate_api_wrapper(&listener).unwrap()),
        "use crate::bindings::YDApi;\n\n"
    );
}
