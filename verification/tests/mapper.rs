//! The type mapper: for every parameter type it accepts, the declared type
//! and the call-site conversion it emits; for every type it rejects, the
//! diagnostic naming that type.

use yd_client_sys::config::{HandlerConfigs, ParameterFlavor, RecordFlavor};
use yd_client_sys::errors::GenError;
use yd_client_sys::methods::get_rs_result_type_from_c_result_type;
use yd_client_sys::model::{ParamDecl, PtrDesc, TdDesc, TypeDesc};
use yd_client_sys::params::handle_function_parameter;

fn map_one(name: &str, ty: TypeDesc, flavor: ParameterFlavor) -> Result<String, GenError> {
    let mut cfg = HandlerConfigs::default();
    cfg.parameter_flavor = flavor;
    cfg.num_parent_children_same_handler = 1;
    cfg.index = 0;
    let p = ParamDecl {
        name: name.to_string(),
        ty,
    };
    handle_function_parameter(&p, &mut cfg).map(|v| v.concat())
}

fn declared(name: &str, ty: TypeDesc) -> String {
    map_one(name, ty, ParameterFlavor::Rust).unwrap()
}

fn call_site(name: &str, ty: TypeDesc) -> String {
    map_one(name, ty, ParameterFlavor::MethodCallParam).unwrap()
}

#[test]
fn owned_string_type_maps_to_cstring_and_borrowed_pointer() {
    let ty = || TypeDesc::Pointer {
        pointee: PtrDesc::Char,
    };
    assert_eq!(declared("user", ty()), "user: std::ffi::CString");
    assert_eq!(call_site("user", ty()), "user.as_ptr()");
}

#[test]
fn string_array_maps_to_owned_strings_and_pointer_array() {
    let ty = || TypeDesc::Pointer {
        pointee: PtrDesc::CharPtr,
    };
    assert_eq!(declared("names", ty()), "names: Vec<std::ffi::CString>");
    assert_eq!(call_site("names", ty()), "names.as_ptr() as *const *const i8");
}

#[test]
fn record_pointer_maps_to_borrow_by_default_and_raw_when_preferred() {
    let ty = || TypeDesc::Pointer {
        pointee: PtrDesc::Record {
            path: vec!["YDOrder".to_string()],
        },
    };
    assert_eq!(declared("order", ty()), "order: &mut YDOrder");
    assert_eq!(call_site("order", ty()), "&mut *order");
    let mut cfg = HandlerConfigs::default();
    cfg.parameter_flavor = ParameterFlavor::Rust;
    cfg.prefer_pointer = true;
    cfg.num_parent_children_same_handler = 1;
    let p = ParamDecl {
        name: "order".to_string(),
        ty: ty(),
    };
    let v = handle_function_parameter(&p, &mut cfg).unwrap();
    assert_eq!(v.concat(), "order: *mut YDOrder");
    assert!(cfg.life_time_on_children);
}

#[test]
fn scalar_types_map_to_fixed_width_equivalents() {
    assert_eq!(declared("n", TypeDesc::Int), "n: std::os::raw::c_int");
    assert_eq!(declared("n", TypeDesc::UInt), "n: std::os::raw::c_uint");
    assert_eq!(declared("n", TypeDesc::ULongLong), "n: u64");
    assert_eq!(declared("x", TypeDesc::Double), "x: f64");
    assert_eq!(declared("b", TypeDesc::Bool), "b: bool");
}

#[test]
fn enum_type_uses_fully_qualified_declaration_path() {
    let ty = TypeDesc::Enum {
        path: vec!["YDExchange".to_string(), "TradeType".to_string()],
    };
    assert_eq!(declared("t", ty), "t: YDExchange_TradeType");
}

#[test]
fn incomplete_array_converts_to_temporary_pointer_array() {
    assert_eq!(
        declared("xs", TypeDesc::IncompleteArray),
        "xs: Vec<std::ffi::CString>"
    );
    assert_eq!(
        call_site("xs", TypeDesc::IncompleteArray),
        "xs.iter().map(|cs| cs.as_ptr()).collect::<Vec<_>>().as_mut_ptr() as *mut *mut i8"
    );
    let mut cfg = HandlerConfigs::default();
    cfg.parameter_flavor = ParameterFlavor::MethodCallParam;
    cfg.record_flavor = RecordFlavor::SPI;
    cfg.num_parent_children_same_handler = 1;
    let p = ParamDecl {
        name: "xs".to_string(),
        ty: TypeDesc::IncompleteArray,
    };
    assert_eq!(
        handle_function_parameter(&p, &mut cfg).unwrap().concat(),
        "xs"
    );
}

#[test]
fn typedefs_resolve_to_their_underlying_type_before_mapping() {
    assert_eq!(
        declared(
            "n",
            TypeDesc::Typedef {
                underlying: TdDesc::Int
            }
        ),
        "n: i32"
    );
    assert_eq!(
        declared(
            "buf",
            TypeDesc::Typedef {
                underlying: TdDesc::ArrayChar { size: 16 }
            }
        ),
        "buf: [std::os::raw::c_char; 16]"
    );
    assert_eq!(
        declared(
            "v",
            TypeDesc::Typedef {
                underlying: TdDesc::LongLong { is_const: true }
            }
        ),
        "v: const i64"
    );
    assert_eq!(
        declared(
            "buf",
            TypeDesc::Typedef {
                underlying: TdDesc::ArrayChar {
                    size: 18446744073709551615
                }
            }
        ),
        "buf: [std::os::raw::c_char; 18446744073709551615]"
    );
    // An underlying pointer is delegated to the pointer mapping.
    assert_eq!(
        declared(
            "user",
            TypeDesc::Typedef {
                underlying: TdDesc::Ptr {
                    pointee: PtrDesc::Char
                }
            }
        ),
        "user: std::ffi::CString"
    );
}

#[test]
fn parameter_named_type_is_renamed() {
    assert_eq!(declared("type", TypeDesc::Bool), "type_: bool");
}

#[test]
fn pointer_parameter_gets_null_check() {
    let ty = TypeDesc::Pointer {
        pointee: PtrDesc::Char,
    };
    assert_eq!(
        map_one("user", ty, ParameterFlavor::UnsafeCheck).unwrap(),
        "        assert!(!user.is_null());"
    );
    // Scalars need no check and contribute nothing to the check pass.
    assert_eq!(
        map_one("n", TypeDesc::Int, ParameterFlavor::UnsafeCheck).unwrap(),
        ""
    );
}

#[test]
fn unrecognized_parameter_type_aborts_naming_it() {
    let e = map_one(
        "v",
        TypeDesc::Other {
            kind: "Vector".to_string(),
        },
        ParameterFlavor::Rust,
    )
    .unwrap_err();
    match &e {
        GenError::UnhandledParameterType { kind } => assert_eq!(kind, "Vector"),
        other => panic!("wrong error: {:?}", other),
    }
    assert_eq!(e.describe(), "unhandled parameter type: Vector");
}

#[test]
fn pointer_to_pointer_to_non_char_aborts() {
    let e = map_one(
        "v",
        TypeDesc::Pointer {
            pointee: PtrDesc::PtrPtrOther,
        },
        ParameterFlavor::Rust,
    )
    .unwrap_err();
    assert!(matches!(e, GenError::UnhandledPointerToPointer));
    assert_eq!(e.describe(), "unhandled pointer to pointer type");
}

#[test]
fn pointer_without_declaration_aborts_naming_kind() {
    let e = map_one(
        "v",
        TypeDesc::Pointer {
            pointee: PtrDesc::OtherNoDecl {
                kind: "FunctionProto".to_string(),
            },
        },
        ParameterFlavor::Rust,
    )
    .unwrap_err();
    assert_eq!(e.describe(), "unhandled pointer type: FunctionProto");
}

#[test]
fn unhandled_array_element_type_aborts_naming_it() {
    let e = map_one(
        "v",
        TypeDesc::Typedef {
            underlying: TdDesc::ArrayOther {
                element_kind: "Double".to_string(),
            },
        },
        ParameterFlavor::Rust,
    )
    .unwrap_err();
    assert_eq!(e.describe(), "unhandled constant array element type: Double");
}

#[test]
fn unhandled_typedef_type_aborts_naming_it() {
    let e = map_one(
        "v",
        TypeDesc::Typedef {
            underlying: TdDesc::Other {
                kind: "Vector".to_string(),
            },
        },
        ParameterFlavor::Rust,
    )
    .unwrap_err();
    assert_eq!(e.describe(), "unhandled typedef type: Vector");
}

#[test]
fn result_types_map_to_their_generated_equivalents() {
    let rt = get_rs_result_type_from_c_result_type;
    assert_eq!(rt("void"), "()");
    assert_eq!(rt("int"), "std::os::raw::c_int");
    assert_eq!(rt("bool"), "bool");
    assert_eq!(rt("const char *"), "*const std::os::raw::c_char");
    assert_eq!(rt("YDQueryResult<char> *"), "*const YDQueryResult");
    assert_eq!(rt("const YDAccount *"), "*const YDAccount");
    assert_eq!(rt("double"), "/** double */");
}

#[test]
fn rejection_is_flavor_independent() {
    for flavor in [
        ParameterFlavor::MethodCallParam,
        ParameterFlavor::Rust,
        ParameterFlavor::UnsafeCheck,
        ParameterFlavor::RustStruct,
        ParameterFlavor::SpiFn,
        ParameterFlavor::LogOnly,
    ] {
        let r = map_one(
            "v",
            TypeDesc::Other {
                kind: "Vector".to_string(),
            },
            flavor,
        );
        assert!(r.is_err());
    }
}
