//! Parameter codegen: maps one native parameter type into the declared type,
//! call-site conversion, struct-field, trampoline-check or payload-initializer
//! text asked for by the active flavor, and reports upward when a mapped type
//! needs a borrowed lifetime on the enclosing generated type. Any type kind
//! without a mapping aborts generation with a diagnostic naming it; a wrong
//! guess would silently corrupt the ABI boundary.

use crate::config::{lifetime_str, lifetime_view, HandlerConfigs, ParameterFlavor, RecordFlavor};
use crate::errors::GenError;
use crate::model::{ParamDecl, PtrDesc, TdDesc, TypeDesc};
use crate::names::{full_name_view, get_full_name_of_entity, snake_of, to_snake_case};
use crate::text::{cat2, cat3, cat4, dec_of, line_views, str_eq, u64_to_dec};
use vstd::prelude::*;
use vstd::string::StringExecFns;

verus! {

/// A configuration whose bottom-up lifetime flag has absorbed one more
/// child's report.
pub open spec fn with_flag(cfg: HandlerConfigs, fl: bool) -> HandlerConfigs {
    HandlerConfigs { life_time_on_children: cfg.life_time_on_children || fl, ..cfg }
}

/// One mapped parameter formatted for the requested flavor.
pub open spec fn spec_format_parameter(
    name: Seq<char>,
    parameter: Seq<char>,
    flavor: ParameterFlavor,
) -> Seq<char> {
    match flavor {
        ParameterFlavor::MethodCallParam => name,
        ParameterFlavor::Rust => name + ": "@ + parameter,
        ParameterFlavor::SpiFn => "            "@ + name + ": "@ + name,
        ParameterFlavor::RustStruct => "    pub "@ + name + ": "@ + parameter,
        ParameterFlavor::UnsafeCheck => "        assert!(!"@ + name + ".is_null());"@,
        ParameterFlavor::LogOnly => "/* Param: "@ + name + " */"@,
    }
}

/// The mapping of one pointer parameter: its text under the active flavor and
/// whether the enclosing generated type needs a borrowed lifetime for it.
pub open spec fn spec_pointer_parameter(name: Seq<char>, p: PtrDesc, cfg: HandlerConfigs) -> Result<
    (Seq<char>, bool),
    GenError,
> {
    let fl = cfg.parameter_flavor;
    let lt = lifetime_view(cfg.life_time);
    match p {
        PtrDesc::Char => Ok(
            (
                match fl {
                    ParameterFlavor::MethodCallParam => name + ".as_ptr()"@,
                    ParameterFlavor::Rust => "std::ffi::CString"@,
                    ParameterFlavor::RustStruct => "std::ffi::CString"@,
                    ParameterFlavor::SpiFn => "*const std::os::raw::c_char"@,
                    ParameterFlavor::UnsafeCheck => "/* No checking 2 */"@,
                    ParameterFlavor::LogOnly => "/* char* */"@,
                },
                false,
            ),
        ),
        PtrDesc::UChar => Ok(
            (
                match fl {
                    ParameterFlavor::MethodCallParam => name + " as *mut ::std::os::raw::c_uchar"@,
                    ParameterFlavor::Rust => "u8"@,
                    ParameterFlavor::RustStruct => "u8"@,
                    ParameterFlavor::SpiFn => "*const std::os::raw::c_uchar"@,
                    ParameterFlavor::UnsafeCheck => "/* No checking 3 */"@,
                    ParameterFlavor::LogOnly => "/* unsigned char* */"@,
                },
                false,
            ),
        ),
        PtrDesc::CharPtr => Ok(
            (
                match fl {
                    ParameterFlavor::MethodCallParam => name + ".as_ptr() as *const *const i8"@,
                    ParameterFlavor::RustStruct => name,
                    ParameterFlavor::Rust => "Vec<std::ffi::CString>"@,
                    ParameterFlavor::SpiFn => ".iter().map(|s| s.as_ptr()).collect::<Vec<_>>().as_ptr() as *const *const i8"@,
                    ParameterFlavor::UnsafeCheck => "/* No checking 4 CharS */"@,
                    ParameterFlavor::LogOnly => "/* char** */"@,
                },
                false,
            ),
        ),
        PtrDesc::PtrPtrOther => Err(GenError::UnhandledPointerToPointer),
        PtrDesc::Record { path } => {
            let full = full_name_view(path@);
            match fl {
                ParameterFlavor::MethodCallParam => Ok(("&mut *"@ + name, false)),
                ParameterFlavor::Rust => Ok(
                    (
                        if cfg.prefer_pointer {
                            "*"@ + lt + "mut "@ + full
                        } else {
                            "&"@ + lt + "mut "@ + full
                        },
                        true,
                    ),
                ),
                ParameterFlavor::RustStruct => Ok(("&"@ + lt + full, true)),
                ParameterFlavor::SpiFn => Ok((full, false)),
                ParameterFlavor::UnsafeCheck => Ok(("/* No checking 5 "@ + full + " */"@, false)),
                ParameterFlavor::LogOnly => Ok(("/* "@ + full + " */"@, false)),
            }
        },
        PtrDesc::Elaborated { display, is_const } => Ok(
            (
                match fl {
                    ParameterFlavor::MethodCallParam => if is_const {
                        name
                    } else {
                        name + " as *mut"@
                    },
                    ParameterFlavor::Rust => if is_const {
                        "&"@ + display@
                    } else {
                        "&mut "@ + display@
                    },
                    ParameterFlavor::RustStruct => if is_const {
                        "&"@ + display@
                    } else {
                        "&mut "@ + display@
                    },
                    ParameterFlavor::SpiFn => "&"@ + display@,
                    ParameterFlavor::UnsafeCheck => "/* No checking 6 \""@ + display@ + "\" */"@,
                    ParameterFlavor::LogOnly => "/* "@ + display@ + " */"@,
                },
                false,
            ),
        ),
        PtrDesc::OtherDecl { path } => {
            let full = full_name_view(path@);
            match fl {
                ParameterFlavor::MethodCallParam => Ok(
                    (
                        if cfg.prefer_pointer {
                            "&mut *"@ + name
                        } else {
                            name
                        },
                        false,
                    ),
                ),
                ParameterFlavor::Rust => Ok(
                    (
                        if cfg.prefer_pointer {
                            "*mut "@ + lt + full
                        } else {
                            "&"@ + lt + full
                        },
                        true,
                    ),
                ),
                ParameterFlavor::RustStruct => Ok(
                    (
                        if cfg.prefer_pointer {
                            "*mut "@ + lt + full
                        } else {
                            "&"@ + lt + full
                        },
                        true,
                    ),
                ),
                ParameterFlavor::SpiFn => Ok(("&"@ + full, false)),
                ParameterFlavor::UnsafeCheck => Ok(
                    ("/* No checking 7 \""@ + full + "\" */"@, false),
                ),
                ParameterFlavor::LogOnly => Ok(("/* "@ + full + " */"@, false)),
            }
        },
        PtrDesc::OtherNoDecl { kind } => Err(GenError::UnhandledPointerType { kind }),
    }
}

/// The mapping of one typedef parameter, after resolution to its underlying
/// type. An underlying pointer is mapped exactly as a plain pointer.
pub open spec fn spec_typedef_parameter(name: Seq<char>, t: TdDesc, cfg: HandlerConfigs) -> Result<
    (Seq<char>, bool),
    GenError,
> {
    let fl = cfg.parameter_flavor;
    match t {
        TdDesc::Char => Ok(
            (
                match fl {
                    ParameterFlavor::MethodCallParam => "*const std::os::raw::c_char"@,
                    ParameterFlavor::Rust => "std::os::raw::c_char"@,
                    ParameterFlavor::RustStruct => "std::os::raw::c_char"@,
                    ParameterFlavor::SpiFn => "as *const std::os::raw::c_char"@,
                    ParameterFlavor::UnsafeCheck => "/* No checking 8 CharS */"@,
                    ParameterFlavor::LogOnly => "/* c_char */"@,
                },
                false,
            ),
        ),
        TdDesc::Ptr { pointee } => spec_pointer_parameter(name, pointee, cfg),
        TdDesc::Int => Ok(
            (
                match fl {
                    ParameterFlavor::MethodCallParam => "i32"@,
                    ParameterFlavor::Rust => "i32"@,
                    ParameterFlavor::RustStruct => "i32"@,
                    ParameterFlavor::SpiFn => "as i32"@,
                    ParameterFlavor::UnsafeCheck => "/* No checking 9 Int */"@,
                    ParameterFlavor::LogOnly => "/* int */"@,
                },
                false,
            ),
        ),
        TdDesc::Bool => Ok(
            (
                match fl {
                    ParameterFlavor::MethodCallParam => "bool"@,
                    ParameterFlavor::Rust => "bool"@,
                    ParameterFlavor::RustStruct => "bool"@,
                    ParameterFlavor::SpiFn => "as bool"@,
                    ParameterFlavor::UnsafeCheck => "/* No checking 10 Bool */"@,
                    ParameterFlavor::LogOnly => "/* bool */"@,
                },
                false,
            ),
        ),
        TdDesc::RecordLike { path, elaborated } => {
            let full = full_name_view(path@);
            let kind_word = if elaborated {
                "Elaborated"@
            } else {
                "Record"@
            };
            Ok(
                (
                    match fl {
                        ParameterFlavor::MethodCallParam => "*mut "@ + full,
                        ParameterFlavor::Rust => full,
                        ParameterFlavor::RustStruct => full,
                        ParameterFlavor::SpiFn => "as *mut "@ + full,
                        ParameterFlavor::UnsafeCheck => "/* No checking 11 "@ + kind_word
                            + " */"@,
                        ParameterFlavor::LogOnly => "/* "@ + full + " */"@,
                    },
                    false,
                ),
            )
        },
        TdDesc::ArrayChar { size } => Ok(
            (
                match fl {
                    ParameterFlavor::MethodCallParam => "[std::os::raw::c_char; "@ + dec_of(
                        size as nat,
                    ) + "]"@,
                    ParameterFlavor::Rust => "[std::os::raw::c_char; "@ + dec_of(size as nat)
                        + "]"@,
                    ParameterFlavor::RustStruct => "[std::os::raw::c_char; "@ + dec_of(size as nat)
                        + "]"@,
                    ParameterFlavor::SpiFn => "as *const [std::os::raw::c_char; "@ + dec_of(
                        size as nat,
                    ) + "]"@,
                    ParameterFlavor::UnsafeCheck => "/* No checking 12 ConstantArray */"@,
                    ParameterFlavor::LogOnly => "/* char array */"@,
                },
                false,
            ),
        ),
        TdDesc::ArrayInt { size } => Ok(
            (
                match fl {
                    ParameterFlavor::MethodCallParam => "[i32; "@ + dec_of(size as nat) + "]"@,
                    ParameterFlavor::Rust => "[i32; "@ + dec_of(size as nat) + "]"@,
                    ParameterFlavor::RustStruct => "[i32; "@ + dec_of(size as nat) + "]"@,
                    ParameterFlavor::SpiFn => "as *const [i32; "@ + dec_of(size as nat) + "]"@,
                    ParameterFlavor::UnsafeCheck => "/* No checking 13 ConstantArray */"@,
                    ParameterFlavor::LogOnly => "/* int array */"@,
                },
                false,
            ),
        ),
        TdDesc::ArrayOther { element_kind } => Err(
            GenError::UnhandledArrayElementType { kind: element_kind },
        ),
        TdDesc::LongLong { is_const } => Ok(
            (
                match fl {
                    ParameterFlavor::MethodCallParam => if is_const {
                        "const i64"@
                    } else {
                        "i64"@
                    },
                    ParameterFlavor::Rust => if is_const {
                        "const i64"@
                    } else {
                        "i64"@
                    },
                    ParameterFlavor::RustStruct => if is_const {
                        "const i64"@
                    } else {
                        "i64"@
                    },
                    ParameterFlavor::SpiFn => "as i64"@,
                    ParameterFlavor::UnsafeCheck => "/* No checking 14 LongLong */"@,
                    ParameterFlavor::LogOnly => "/* i64 */"@,
                },
                false,
            ),
        ),
        TdDesc::Other { kind } => Err(GenError::UnhandledTypedefType { kind }),
    }
}

/// The generated name of a parameter: `type` is renamed to `type_`, every
/// other name is snake-cased.
pub open spec fn spec_param_name(name: Seq<char>) -> Seq<char> {
    if name == "type"@ {
        "type_"@
    } else {
        snake_of(name)
    }
}

/// The text of one parameter under the active flavor, before separators.
pub open spec fn spec_parameter_str(p: ParamDecl, cfg: HandlerConfigs) -> Result<
    (Seq<char>, bool),
    GenError,
> {
    let fl = cfg.parameter_flavor;
    let name = spec_param_name(p.name@);
    match p.ty {
        TypeDesc::Pointer { pointee } => match spec_pointer_parameter(name, pointee, cfg) {
            Err(e) => Err(e),
            Ok((t, lifetime)) => Ok(
                (
                    match fl {
                        ParameterFlavor::MethodCallParam => t,
                        _ => spec_format_parameter(name, t, fl),
                    },
                    lifetime,
                ),
            ),
        },
        TypeDesc::Typedef { underlying } => match spec_typedef_parameter(name, underlying, cfg) {
            Err(e) => Err(e),
            Ok((t, lifetime)) => Ok(
                (
                    match fl {
                        ParameterFlavor::MethodCallParam => t,
                        _ => spec_format_parameter(name, t, fl),
                    },
                    lifetime,
                ),
            ),
        },
        TypeDesc::UInt => Ok(
            (
                match fl {
                    ParameterFlavor::UnsafeCheck => ""@,
                    _ => spec_format_parameter(name, "std::os::raw::c_uint"@, fl),
                },
                false,
            ),
        ),
        TypeDesc::Double => Ok(
            (
                match fl {
                    ParameterFlavor::UnsafeCheck => ""@,
                    _ => spec_format_parameter(name, "f64"@, fl),
                },
                false,
            ),
        ),
        TypeDesc::ULongLong => Ok(
            (
                match fl {
                    ParameterFlavor::UnsafeCheck => ""@,
                    _ => spec_format_parameter(name, "u64"@, fl),
                },
                false,
            ),
        ),
        TypeDesc::Int => Ok(
            (
                match fl {
                    ParameterFlavor::UnsafeCheck => ""@,
                    _ => spec_format_parameter(name, "std::os::raw::c_int"@, fl),
                },
                false,
            ),
        ),
        TypeDesc::Bool => Ok(
            (
                match fl {
                    ParameterFlavor::UnsafeCheck => ""@,
                    _ => spec_format_parameter(name, "bool"@, fl),
                },
                false,
            ),
        ),
        TypeDesc::Enum { path } => Ok(
            (
                match fl {
                    ParameterFlavor::UnsafeCheck => ""@,
                    _ => spec_format_parameter(name, full_name_view(path@), fl),
                },
                false,
            ),
        ),
        TypeDesc::IncompleteArray => Ok(
            (
                match fl {
                    ParameterFlavor::UnsafeCheck => ""@,
                    ParameterFlavor::MethodCallParam => match cfg.record_flavor {
                        RecordFlavor::SPI => name,
                        _ => name
                            + ".iter().map(|cs| cs.as_ptr()).collect::<Vec<_>>().as_mut_ptr() as *mut *mut i8"@,
                    },
                    _ => spec_format_parameter(name, "Vec<std::ffi::CString>"@, fl),
                },
                false,
            ),
        ),
        TypeDesc::Other { kind } => Err(GenError::UnhandledParameterType { kind }),
    }
}

/// The fragments one parameter contributes, with positional separators: a
/// comma-newline after struct fields and payload initializers, a comma-space
/// before every argument but the first, and a leading empty fragment in the
/// log and check passes.
pub open spec fn spec_parameter_lines(p: ParamDecl, cfg: HandlerConfigs) -> Result<
    (Seq<Seq<char>>, bool),
    GenError,
> {
    match spec_parameter_str(p, cfg) {
        Err(e) => Err(e),
        Ok((t, lifetime)) => {
            let only = cfg.num_parent_children_same_handler == 1;
            let first = cfg.index == 0;
            let lines = if only {
                match cfg.parameter_flavor {
                    ParameterFlavor::SpiFn => seq![t, ",\n"@],
                    _ => seq![t],
                }
            } else {
                match cfg.parameter_flavor {
                    ParameterFlavor::LogOnly => seq![""@, t],
                    ParameterFlavor::UnsafeCheck => seq![""@, t],
                    ParameterFlavor::RustStruct => seq![t, ",\n"@],
                    ParameterFlavor::SpiFn => seq![t, ",\n"@],
                    _ => if first {
                        seq![t]
                    } else {
                        seq![", "@, t]
                    },
                }
            };
            Ok((lines, lifetime))
        },
    }
}

/// Whether a pointer parameter has a mapping.
pub open spec fn ptr_mappable(p: PtrDesc) -> bool {
    !(p is PtrPtrOther || p is OtherNoDecl)
}

/// Whether a typedef parameter has a mapping after resolution.
pub open spec fn td_mappable(t: TdDesc) -> bool {
    match t {
        TdDesc::Ptr { pointee } => ptr_mappable(pointee),
        TdDesc::ArrayOther { .. } => false,
        TdDesc::Other { .. } => false,
        _ => true,
    }
}

/// Whether the mapper accepts a parameter type at all. Acceptance does not
/// depend on the active flavor: an accepted type maps under every flavor,
/// and any other aborts generation under every flavor.
pub open spec fn ty_mappable(ty: TypeDesc) -> bool {
    match ty {
        TypeDesc::Pointer { pointee } => ptr_mappable(pointee),
        TypeDesc::Typedef { underlying } => td_mappable(underlying),
        TypeDesc::Other { .. } => false,
        _ => true,
    }
}

/// The diagnostic that an unmappable parameter type produces; meaningful
/// only when `ty_mappable` fails.
pub open spec fn ty_error(ty: TypeDesc) -> GenError {
    match ty {
        TypeDesc::Pointer { pointee } => match pointee {
            PtrDesc::OtherNoDecl { kind } => GenError::UnhandledPointerType { kind },
            _ => GenError::UnhandledPointerToPointer,
        },
        TypeDesc::Typedef { underlying } => match underlying {
            TdDesc::Ptr { pointee } => match pointee {
                PtrDesc::OtherNoDecl { kind } => GenError::UnhandledPointerType { kind },
                _ => GenError::UnhandledPointerToPointer,
            },
            TdDesc::ArrayOther { element_kind } => GenError::UnhandledArrayElementType {
                kind: element_kind,
            },
            TdDesc::Other { kind } => GenError::UnhandledTypedefType { kind },
            _ => GenError::UnhandledPointerToPointer,
        },
        TypeDesc::Other { kind } => GenError::UnhandledParameterType { kind },
        _ => GenError::UnhandledPointerToPointer,
    }
}

/// The mapper accepts a parameter exactly when its type has a mapping, and
/// then emits its fragments under every flavor; a parameter of an
/// unrecognized type aborts generation, under every flavor, with the
/// diagnostic naming that type.
pub proof fn lemma_parameter_lines_err_iff(p: ParamDecl, cfg: HandlerConfigs)
    ensures
        spec_parameter_lines(p, cfg) is Ok <==> ty_mappable(p.ty),
        !ty_mappable(p.ty) ==> spec_parameter_lines(p, cfg) == Err::<
            (Seq<Seq<char>>, bool),
            GenError,
        >(ty_error(p.ty)),
{
}

/// Formats one mapped parameter for the requested flavor.
fn format_parameter(name: &str, parameter: &str, flavor: ParameterFlavor) -> (r: String)
    ensures
        r@ == spec_format_parameter(name@, parameter@, flavor),
{
    match flavor {
        ParameterFlavor::MethodCallParam => String::from_str(name),
        ParameterFlavor::Rust => cat3(name, ": ", parameter),
        ParameterFlavor::SpiFn => cat4("            ", name, ": ", name),
        ParameterFlavor::RustStruct => cat4("    pub ", name, ": ", parameter),
        ParameterFlavor::UnsafeCheck => cat3("        assert!(!", name, ".is_null());"),
        ParameterFlavor::LogOnly => cat3("/* Param: ", name, " */"),
    }
}

/// Maps one pointer parameter; the flag reports a needed lifetime upward.
fn get_pointer_parameter(name: &str, pointee: &PtrDesc, cfg: &HandlerConfigs) -> (r: Result<
    (String, bool),
    GenError,
>)
    ensures
        ({
            let sp = spec_pointer_parameter(name@, *pointee, *cfg);
            match r {
                Ok((t, lifetime)) => sp matches Ok(o) && o.0 == t@ && o.1 == lifetime,
                Err(e) => sp == Err::<(Seq<char>, bool), GenError>(e),
            }
        }),
{
    let lt = lifetime_str(cfg.life_time);
    match pointee {
        PtrDesc::Char => Ok(
            (
                match cfg.parameter_flavor {
                    ParameterFlavor::MethodCallParam => cat2(name, ".as_ptr()"),
                    ParameterFlavor::Rust => String::from_str("std::ffi::CString"),
                    ParameterFlavor::RustStruct => String::from_str("std::ffi::CString"),
                    ParameterFlavor::SpiFn => String::from_str("*const std::os::raw::c_char"),
                    ParameterFlavor::UnsafeCheck => String::from_str("/* No checking 2 */"),
                    ParameterFlavor::LogOnly => String::from_str("/* char* */"),
                },
                false,
            ),
        ),
        PtrDesc::UChar => Ok(
            (
                match cfg.parameter_flavor {
                    ParameterFlavor::MethodCallParam => cat2(
                        name,
                        " as *mut ::std::os::raw::c_uchar",
                    ),
                    ParameterFlavor::Rust => String::from_str("u8"),
                    ParameterFlavor::RustStruct => String::from_str("u8"),
                    ParameterFlavor::SpiFn => String::from_str("*const std::os::raw::c_uchar"),
                    ParameterFlavor::UnsafeCheck => String::from_str("/* No checking 3 */"),
                    ParameterFlavor::LogOnly => String::from_str("/* unsigned char* */"),
                },
                false,
            ),
        ),
        PtrDesc::CharPtr => Ok(
            (
                match cfg.parameter_flavor {
                    ParameterFlavor::MethodCallParam => cat2(name, ".as_ptr() as *const *const i8"),
                    ParameterFlavor::RustStruct => String::from_str(name),
                    ParameterFlavor::Rust => String::from_str("Vec<std::ffi::CString>"),
                    ParameterFlavor::SpiFn => String::from_str(
                        ".iter().map(|s| s.as_ptr()).collect::<Vec<_>>().as_ptr() as *const *const i8",
                    ),
                    ParameterFlavor::UnsafeCheck => String::from_str("/* No checking 4 CharS */"),
                    ParameterFlavor::LogOnly => String::from_str("/* char** */"),
                },
                false,
            ),
        ),
        PtrDesc::PtrPtrOther => Err(GenError::UnhandledPointerToPointer),
        PtrDesc::Record { path } => {
            let full = get_full_name_of_entity(path);
            match cfg.parameter_flavor {
                ParameterFlavor::MethodCallParam => Ok((cat2("&mut *", name), false)),
                ParameterFlavor::Rust => Ok(
                    (
                        if cfg.prefer_pointer {
                            cat4("*", lt, "mut ", full.as_str())
                        } else {
                            cat4("&", lt, "mut ", full.as_str())
                        },
                        true,
                    ),
                ),
                ParameterFlavor::RustStruct => Ok((cat3("&", lt, full.as_str()), true)),
                ParameterFlavor::SpiFn => Ok((full, false)),
                ParameterFlavor::UnsafeCheck => Ok(
                    (cat3("/* No checking 5 ", full.as_str(), " */"), false),
                ),
                ParameterFlavor::LogOnly => Ok((cat3("/* ", full.as_str(), " */"), false)),
            }
        },
        PtrDesc::Elaborated { display, is_const } => Ok(
            (
                match cfg.parameter_flavor {
                    ParameterFlavor::MethodCallParam => if *is_const {
                        String::from_str(name)
                    } else {
                        cat2(name, " as *mut")
                    },
                    ParameterFlavor::Rust => if *is_const {
                        cat2("&", display.as_str())
                    } else {
                        cat2("&mut ", display.as_str())
                    },
                    ParameterFlavor::RustStruct => if *is_const {
                        cat2("&", display.as_str())
                    } else {
                        cat2("&mut ", display.as_str())
                    },
                    ParameterFlavor::SpiFn => cat2("&", display.as_str()),
                    ParameterFlavor::UnsafeCheck => cat3(
                        "/* No checking 6 \"",
                        display.as_str(),
                        "\" */",
                    ),
                    ParameterFlavor::LogOnly => cat3("/* ", display.as_str(), " */"),
                },
                false,
            ),
        ),
        PtrDesc::OtherDecl { path } => {
            let full = get_full_name_of_entity(path);
            match cfg.parameter_flavor {
                ParameterFlavor::MethodCallParam => Ok(
                    (
                        if cfg.prefer_pointer {
                            cat2("&mut *", name)
                        } else {
                            String::from_str(name)
                        },
                        false,
                    ),
                ),
                ParameterFlavor::Rust => Ok(
                    (
                        if cfg.prefer_pointer {
                            cat3("*mut ", lt, full.as_str())
                        } else {
                            cat3("&", lt, full.as_str())
                        },
                        true,
                    ),
                ),
                ParameterFlavor::RustStruct => Ok(
                    (
                        if cfg.prefer_pointer {
                            cat3("*mut ", lt, full.as_str())
                        } else {
                            cat3("&", lt, full.as_str())
                        },
                        true,
                    ),
                ),
                ParameterFlavor::SpiFn => Ok((cat2("&", full.as_str()), false)),
                ParameterFlavor::UnsafeCheck => Ok(
                    (cat3("/* No checking 7 \"", full.as_str(), "\" */"), false),
                ),
                ParameterFlavor::LogOnly => Ok((cat3("/* ", full.as_str(), " */"), false)),
            }
        },
        PtrDesc::OtherNoDecl { kind } => Err(GenError::UnhandledPointerType { kind: kind.clone() }),
    }
}

/// Maps one typedef parameter after resolution to its underlying type.
fn get_typedef_parameter(name: &str, underlying: &TdDesc, cfg: &HandlerConfigs) -> (r: Result<
    (String, bool),
    GenError,
>)
    ensures
        ({
            let sp = spec_typedef_parameter(name@, *underlying, *cfg);
            match r {
                Ok((t, lifetime)) => sp matches Ok(o) && o.0 == t@ && o.1 == lifetime,
                Err(e) => sp == Err::<(Seq<char>, bool), GenError>(e),
            }
        }),
{
    match underlying {
        TdDesc::Char => Ok(
            (
                match cfg.parameter_flavor {
                    ParameterFlavor::MethodCallParam => String::from_str(
                        "*const std::os::raw::c_char",
                    ),
                    ParameterFlavor::Rust => String::from_str("std::os::raw::c_char"),
                    ParameterFlavor::RustStruct => String::from_str("std::os::raw::c_char"),
                    ParameterFlavor::SpiFn => String::from_str("as *const std::os::raw::c_char"),
                    ParameterFlavor::UnsafeCheck => String::from_str("/* No checking 8 CharS */"),
                    ParameterFlavor::LogOnly => String::from_str("/* c_char */"),
                },
                false,
            ),
        ),
        TdDesc::Ptr { pointee } => get_pointer_parameter(name, pointee, cfg),
        TdDesc::Int => Ok(
            (
                match cfg.parameter_flavor {
                    ParameterFlavor::MethodCallParam => String::from_str("i32"),
                    ParameterFlavor::Rust => String::from_str("i32"),
                    ParameterFlavor::RustStruct => String::from_str("i32"),
                    ParameterFlavor::SpiFn => String::from_str("as i32"),
                    ParameterFlavor::UnsafeCheck => String::from_str("/* No checking 9 Int */"),
                    ParameterFlavor::LogOnly => String::from_str("/* int */"),
                },
                false,
            ),
        ),
        TdDesc::Bool => Ok(
            (
                match cfg.parameter_flavor {
                    ParameterFlavor::MethodCallParam => String::from_str("bool"),
                    ParameterFlavor::Rust => String::from_str("bool"),
                    ParameterFlavor::RustStruct => String::from_str("bool"),
                    ParameterFlavor::SpiFn => String::from_str("as bool"),
                    ParameterFlavor::UnsafeCheck => String::from_str("/* No checking 10 Bool */"),
                    ParameterFlavor::LogOnly => String::from_str("/* bool */"),
                },
                false,
            ),
        ),
        TdDesc::RecordLike { path, elaborated } => {
            let full = get_full_name_of_entity(path);
            let kind_word = if *elaborated {
                "Elaborated"
            } else {
                "Record"
            };
            Ok(
                (
                    match cfg.parameter_flavor {
                        ParameterFlavor::MethodCallParam => cat2("*mut ", full.as_str()),
                        ParameterFlavor::Rust => full,
                        ParameterFlavor::RustStruct => full,
                        ParameterFlavor::SpiFn => cat2("as *mut ", full.as_str()),
                        ParameterFlavor::UnsafeCheck => cat3(
                            "/* No checking 11 ",
                            kind_word,
                            " */",
                        ),
                        ParameterFlavor::LogOnly => cat3("/* ", full.as_str(), " */"),
                    },
                    false,
                ),
            )
        },
        TdDesc::ArrayChar { size } => {
            let size_text = u64_to_dec(*size);
            Ok(
                (
                    match cfg.parameter_flavor {
                        ParameterFlavor::MethodCallParam => cat3(
                            "[std::os::raw::c_char; ",
                            size_text.as_str(),
                            "]",
                        ),
                        ParameterFlavor::Rust => cat3(
                            "[std::os::raw::c_char; ",
                            size_text.as_str(),
                            "]",
                        ),
                        ParameterFlavor::RustStruct => cat3(
                            "[std::os::raw::c_char; ",
                            size_text.as_str(),
                            "]",
                        ),
                        ParameterFlavor::SpiFn => cat3(
                            "as *const [std::os::raw::c_char; ",
                            size_text.as_str(),
                            "]",
                        ),
                        ParameterFlavor::UnsafeCheck => String::from_str(
                            "/* No checking 12 ConstantArray */",
                        ),
                        ParameterFlavor::LogOnly => String::from_str("/* char array */"),
                    },
                    false,
                ),
            )
        },
        TdDesc::ArrayInt { size } => {
            let size_text = u64_to_dec(*size);
            Ok(
                (
                    match cfg.parameter_flavor {
                        ParameterFlavor::MethodCallParam => cat3("[i32; ", size_text.as_str(), "]"),
                        ParameterFlavor::Rust => cat3("[i32; ", size_text.as_str(), "]"),
                        ParameterFlavor::RustStruct => cat3("[i32; ", size_text.as_str(), "]"),
                        ParameterFlavor::SpiFn => cat3(
                            "as *const [i32; ",
                            size_text.as_str(),
                            "]",
                        ),
                        ParameterFlavor::UnsafeCheck => String::from_str(
                            "/* No checking 13 ConstantArray */",
                        ),
                        ParameterFlavor::LogOnly => String::from_str("/* int array */"),
                    },
                    false,
                ),
            )
        },
        TdDesc::ArrayOther { element_kind } => Err(
            GenError::UnhandledArrayElementType { kind: element_kind.clone() },
        ),
        TdDesc::LongLong { is_const } => Ok(
            (
                match cfg.parameter_flavor {
                    ParameterFlavor::MethodCallParam => if *is_const {
                        String::from_str("const i64")
                    } else {
                        String::from_str("i64")
                    },
                    ParameterFlavor::Rust => if *is_const {
                        String::from_str("const i64")
                    } else {
                        String::from_str("i64")
                    },
                    ParameterFlavor::RustStruct => if *is_const {
                        String::from_str("const i64")
                    } else {
                        String::from_str("i64")
                    },
                    ParameterFlavor::SpiFn => String::from_str("as i64"),
                    ParameterFlavor::UnsafeCheck => String::from_str(
                        "/* No checking 14 LongLong */",
                    ),
                    ParameterFlavor::LogOnly => String::from_str("/* i64 */"),
                },
                false,
            ),
        ),
        TdDesc::Other { kind } => Err(GenError::UnhandledTypedefType { kind: kind.clone() }),
    }
}

/// Emits the fragments of one parameter under the active flavors, reporting a
/// needed lifetime upward through the configuration.
pub fn handle_function_parameter(p: &ParamDecl, cfg: &mut HandlerConfigs) -> (r: Result<
    Vec<String>,
    GenError,
>)
    ensures
        ({
            let sp = spec_parameter_lines(*p, *old(cfg));
            match r {
                Ok(v) => sp matches Ok(o) && line_views(v@) == o.0 && *final(cfg) == with_flag(
                    *old(cfg),
                    o.1,
                ),
                Err(e) => sp == Err::<(Seq<Seq<char>>, bool), GenError>(e) && *final(cfg) == *old(
                    cfg,
                ),
            }
        }),
{
    let entity_name = if str_eq(p.name.as_str(), "type") {
        String::from_str("type_")
    } else {
        to_snake_case(p.name.as_str())
    };
    let mapped: Result<(String, bool), GenError> = match &p.ty {
        TypeDesc::Pointer { pointee } => {
            match get_pointer_parameter(entity_name.as_str(), pointee, cfg) {
                Err(e) => Err(e),
                Ok((t, lifetime)) => Ok(
                    (
                        match cfg.parameter_flavor {
                            ParameterFlavor::MethodCallParam => t,
                            _ => format_parameter(
                                entity_name.as_str(),
                                t.as_str(),
                                cfg.parameter_flavor,
                            ),
                        },
                        lifetime,
                    ),
                ),
            }
        },
        TypeDesc::Typedef { underlying } => {
            match get_typedef_parameter(entity_name.as_str(), underlying, cfg) {
                Err(e) => Err(e),
                Ok((t, lifetime)) => Ok(
                    (
                        match cfg.parameter_flavor {
                            ParameterFlavor::MethodCallParam => t,
                            _ => format_parameter(
                                entity_name.as_str(),
                                t.as_str(),
                                cfg.parameter_flavor,
                            ),
                        },
                        lifetime,
                    ),
                ),
            }
        },
        TypeDesc::UInt => Ok(
            (
                match cfg.parameter_flavor {
                    ParameterFlavor::UnsafeCheck => String::from_str(""),
                    _ => format_parameter(
                        entity_name.as_str(),
                        "std::os::raw::c_uint",
                        cfg.parameter_flavor,
                    ),
                },
                false,
            ),
        ),
        TypeDesc::Double => Ok(
            (
                match cfg.parameter_flavor {
                    ParameterFlavor::UnsafeCheck => String::from_str(""),
                    _ => format_parameter(entity_name.as_str(), "f64", cfg.parameter_flavor),
                },
                false,
            ),
        ),
        TypeDesc::ULongLong => Ok(
            (
                match cfg.parameter_flavor {
                    ParameterFlavor::UnsafeCheck => String::from_str(""),
                    _ => format_parameter(entity_name.as_str(), "u64", cfg.parameter_flavor),
                },
                false,
            ),
        ),
        TypeDesc::Int => Ok(
            (
                match cfg.parameter_flavor {
                    ParameterFlavor::UnsafeCheck => String::from_str(""),
                    _ => format_parameter(
                        entity_name.as_str(),
                        "std::os::raw::c_int",
                        cfg.parameter_flavor,
                    ),
                },
                false,
            ),
        ),
        TypeDesc::Bool => Ok(
            (
                match cfg.parameter_flavor {
                    ParameterFlavor::UnsafeCheck => String::from_str(""),
                    _ => format_parameter(entity_name.as_str(), "bool", cfg.parameter_flavor),
                },
                false,
            ),
        ),
        TypeDesc::Enum { path } => Ok(
            (
                match cfg.parameter_flavor {
                    ParameterFlavor::UnsafeCheck => String::from_str(""),
                    _ => {
                        let rust_type = get_full_name_of_entity(path);
                        format_parameter(
                            entity_name.as_str(),
                            rust_type.as_str(),
                            cfg.parameter_flavor,
                        )
                    },
                },
                false,
            ),
        ),
        TypeDesc::IncompleteArray => Ok(
            (
                match cfg.parameter_flavor {
                    ParameterFlavor::UnsafeCheck => String::from_str(""),
                    ParameterFlavor::MethodCallParam => match cfg.record_flavor {
                        RecordFlavor::SPI => entity_name.clone(),
                        _ => cat2(
                            entity_name.as_str(),
                            ".iter().map(|cs| cs.as_ptr()).collect::<Vec<_>>().as_mut_ptr() as *mut *mut i8",
                        ),
                    },
                    _ => format_parameter(
                        entity_name.as_str(),
                        "Vec<std::ffi::CString>",
                        cfg.parameter_flavor,
                    ),
                },
                false,
            ),
        ),
        TypeDesc::Other { kind } => Err(GenError::UnhandledParameterType { kind: kind.clone() }),
    };
    match mapped {
        Err(e) => Err(e),
        Ok((parameter_str, lifetime)) => {
            let is_only_child = cfg.num_parent_children_same_handler == 1;
            let is_first_child = cfg.index == 0;
            let mut lines: Vec<String> = Vec::new();
            if is_only_child {
                match cfg.parameter_flavor {
                    ParameterFlavor::SpiFn => {
                        lines.push(parameter_str);
                        lines.push(String::from_str(",\n"));
                    },
                    _ => {
                        lines.push(parameter_str);
                    },
                }
            } else {
                match cfg.parameter_flavor {
                    ParameterFlavor::LogOnly | ParameterFlavor::UnsafeCheck => {
                        lines.push(String::from_str(""));
                        lines.push(parameter_str);
                    },
                    ParameterFlavor::RustStruct | ParameterFlavor::SpiFn => {
                        lines.push(parameter_str);
                        lines.push(String::from_str(",\n"));
                    },
                    _ => {
                        if is_first_child {
                            lines.push(parameter_str);
                        } else {
                            lines.push(String::from_str(", "));
                            lines.push(parameter_str);
                        }
                    },
                }
            }
            cfg.life_time_on_children = cfg.life_time_on_children || lifetime;
            proof {
                let sp = spec_parameter_lines(*p, *old(cfg));
                assert(sp matches Ok(o) && line_views(lines@) =~= o.0);
            }
            Ok(lines)
        },
    }
}

} // verus!
