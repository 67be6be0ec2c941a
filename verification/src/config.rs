//! The propagated configuration threaded through every traversal pass: which
//! artifact each handler emits (the flavors), the owning record's name, the
//! sibling bookkeeping used for overload numbering, and the bottom-up flag by
//! which parameters report that an ancestor-generated type needs a borrowed
//! lifetime.

use vstd::prelude::*;
use vstd::string::StringExecFns;

verus! {

/// Which textual artifact the parameter handler emits for one parameter.
#[derive(Clone, Copy, Debug)]
pub enum ParameterFlavor {
    /// Call-argument text forwarding the parameter to the native call.
    MethodCallParam,
    /// Declaration text, `name: type`.
    Rust,
    /// A null-pointer check for the native trampoline.
    UnsafeCheck,
    /// A struct field of the event payload.
    RustStruct,
    /// A field initializer inside the pushed event payload.
    SpiFn,
    /// A placeholder comment only.
    LogOnly,
}

/// Which textual artifact the method handler emits for one method.
#[derive(Clone, Copy, Debug)]
pub enum MethodFlavor {
    /// A field of the ABI dispatch-table struct.
    VTableStruct,
    /// A default no-op stub of the capability trait.
    SpiTrait,
    /// A public wrapper method of the outbound API.
    ApiTrait,
    /// An entry of the static dispatch-table instance.
    StaticTable,
    /// A variant of the tagged event type.
    OutputEnum,
    /// The payload struct of one event variant.
    OutputEnumStruct,
    /// The native-ABI trampoline.
    CFn,
    /// The trait impl method that pushes the event onto the bridge queue.
    SpiFn,
    /// A placeholder comment only.
    LogOnly,
}

/// Which treatment a record receives.
#[derive(Clone, Copy, Debug)]
pub enum RecordFlavor {
    /// A callback contract: trait, dispatch table, events, bridge.
    SPI,
    /// The outbound API: safe wrapper methods.
    API,
    /// A placeholder comment only.
    LogOnly,
}

/// The lifetime marker spliced into borrowed parameter types: either nothing
/// or the borrowed lifetime `'a ` that event payloads carry.
#[derive(Clone, Copy, Debug)]
pub enum LifetimeMark {
    Blank,
    BorrowedA,
}

/// The text a lifetime marker splices into a type.
pub open spec fn lifetime_view(l: LifetimeMark) -> Seq<char> {
    match l {
        LifetimeMark::Blank => ""@,
        LifetimeMark::BorrowedA => "'a "@,
    }
}

/// The text a lifetime marker splices into a type.
pub fn lifetime_str(l: LifetimeMark) -> (r: &'static str)
    ensures
        r@ == lifetime_view(l),
{
    match l {
        LifetimeMark::Blank => "",
        LifetimeMark::BorrowedA => "'a ",
    }
}

/// The inherited configuration object. Cloned and specialized before each
/// child visit; children report upward through `life_time_on_children`.
#[derive(Debug)]
pub struct HandlerConfigs {
    pub method_flavor: MethodFlavor,
    pub parameter_flavor: ParameterFlavor,
    pub record_flavor: RecordFlavor,
    /// The owning record's display name.
    pub record_name: String,
    /// The lifetime marker spliced into borrowed parameter types.
    pub life_time: LifetimeMark,
    /// Set by children when any parameter needs a lifetime on the enclosing
    /// generated type.
    pub life_time_on_children: bool,
    /// Trampoline parameters received from native code are raw pointers.
    pub prefer_pointer: bool,
    /// The index of the visited child among its same-handler siblings.
    pub index: usize,
    /// How many same-handler children the parent has.
    pub num_parent_children_same_handler: usize,
    pub debug: bool,
}

/// An exact copy of a configuration.
pub fn clone_configs(cfg: &HandlerConfigs) -> (r: HandlerConfigs)
    ensures
        r == *cfg,
{
    HandlerConfigs {
        method_flavor: cfg.method_flavor,
        parameter_flavor: cfg.parameter_flavor,
        record_flavor: cfg.record_flavor,
        record_name: cfg.record_name.clone(),
        life_time: cfg.life_time,
        life_time_on_children: cfg.life_time_on_children,
        prefer_pointer: cfg.prefer_pointer,
        index: cfg.index,
        num_parent_children_same_handler: cfg.num_parent_children_same_handler,
        debug: cfg.debug,
    }
}

impl Default for HandlerConfigs {
    /// The configuration at the top of a traversal: every flavor set to its
    /// placeholder, no lifetime, and a warning marker as the record name.
    fn default() -> (r: Self)
        ensures
            r.method_flavor is LogOnly,
            r.parameter_flavor is LogOnly,
            r.record_flavor is LogOnly,
            r.record_name@ == "WarningRecordNameUnfilled"@,
            r.life_time is Blank,
            !r.life_time_on_children,
            !r.prefer_pointer,
            r.index == 0,
            r.num_parent_children_same_handler == 0,
            !r.debug,
    {
        HandlerConfigs {
            method_flavor: MethodFlavor::LogOnly,
            parameter_flavor: ParameterFlavor::LogOnly,
            record_flavor: RecordFlavor::LogOnly,
            record_name: String::from_str("WarningRecordNameUnfilled"),
            life_time: LifetimeMark::Blank,
            life_time_on_children: false,
            prefer_pointer: false,
            index: 0,
            num_parent_children_same_handler: 0,
            debug: false,
        }
    }
}

} // verus!
