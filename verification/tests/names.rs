//! Identifier formatting: case conversion, declaration paths, overload
//! suffixes and the identifier rewrites.

use yd_client_sys::methods::find_previous_sibling_index;
use yd_client_sys::model::{MethodDecl, RecordChild};
use yd_client_sys::names::{
    ascii_upper, format_enum_name, get_full_name_of_entity, method_ident, replace_id,
    suffix_string, to_camel_case, to_pascal_case, to_snake_case,
};

fn method(name: &str) -> RecordChild {
    RecordChild::Method(MethodDecl {
        name: name.to_string(),
        result_type: "void".to_string(),
        children: Vec::new(),
    })
}

#[test]
fn snake_case_of_camel_name() {
    assert_eq!(to_snake_case("insertOrder"), "insert_order");
    assert_eq!(to_snake_case("notifyLogin"), "notify_login");
    assert_eq!(to_snake_case("maxOrderRef"), "max_order_ref");
    assert_eq!(to_snake_case(""), "");
}

#[test]
fn pascal_case_of_camel_name() {
    assert_eq!(to_pascal_case("notifyLogin"), "NotifyLogin");
    assert_eq!(to_pascal_case(""), "");
}

#[test]
fn camel_case_of_snake_name() {
    assert_eq!(to_camel_case("insert_order"), "insertOrder");
}

#[test]
fn enum_name_strips_destructor_tilde() {
    assert_eq!(format_enum_name("notifyLogin"), "NotifyLogin");
    assert_eq!(format_enum_name("~notifyLogin"), "NotifyLogin");
}

#[test]
fn full_name_joins_nonempty_segments() {
    let segs = vec![
        "".to_string(),
        "YDExchange".to_string(),
        "".to_string(),
        "TradeType".to_string(),
    ];
    assert_eq!(get_full_name_of_entity(&segs), "YDExchange_TradeType");
    let one = vec!["YDListener".to_string()];
    assert_eq!(get_full_name_of_entity(&one), "YDListener");
    let none: Vec<String> = Vec::new();
    assert_eq!(get_full_name_of_entity(&none), "");
}

#[test]
fn overload_suffix_counts_prior_occurrences() {
    assert_eq!(suffix_string(0), "");
    assert_eq!(suffix_string(1), "1");
    assert_eq!(suffix_string(12), "12");
    assert_eq!(method_ident("insertOrder", 0), "insert_order");
    assert_eq!(method_ident("insertOrder", 1), "insert_order1");
}

#[test]
fn prior_sibling_index_ignores_unrelated_names() {
    let siblings = vec![
        method("insertOrder"),
        method("cancelOrder"),
        method("insertOrder"),
        RecordChild::Other {
            kind: "AccessSpecifier".to_string(),
        },
        method("insertOrder"),
    ];
    assert_eq!(find_previous_sibling_index(&siblings, 0), 0);
    assert_eq!(find_previous_sibling_index(&siblings, 1), 0);
    assert_eq!(find_previous_sibling_index(&siblings, 2), 1);
    assert_eq!(find_previous_sibling_index(&siblings, 4), 2);
}

#[test]
fn ascii_upper_raises_lowercase_only() {
    assert_eq!(ascii_upper("yd_listener"), "YD_LISTENER");
    assert_eq!(ascii_upper("Yd9_x"), "YD9_X");
}

#[test]
fn replace_id_rewrites_each_occurrence() {
    assert_eq!(replace_id("queryOrderId"), "queryOrderID");
    assert_eq!(replace_id("IdId"), "IDID");
    assert_eq!(replace_id("Identity"), "IDentity");
    assert_eq!(replace_id("plain"), "plain");
}
