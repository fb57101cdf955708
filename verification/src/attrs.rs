//! Typed parameters of a hook declaration.
//!
//! These are the inputs the registration generators work from. The
//! upstream front end is expected to have already resolved its own
//! attribute surface into these values; how that surface is written is
//! not this crate's concern.

use vstd::prelude::*;

use crate::ast::Expr;

verus! {

/// A link-time target of an address-based hook.
#[derive(Debug, PartialEq, Eq)]
pub enum StaticSymbol {
    /// An address already resolved at declaration time.
    Resolved(u64),
    /// A mangled symbol name left for the registry to resolve.
    Unresolved(Vec<u8>),
}

/// An interpreter constant: either a symbolic constant resolved by the
/// host when used, or a value already evaluated at declaration time.
#[derive(Debug, PartialEq, Eq)]
pub enum LuaConstant {
    Symbolic(Vec<u8>),
    Evaluated(i32),
}

/// The four script categories a replacement can target. Their meaning is
/// owned by the registry; this crate passes them through untouched.
#[allow(non_camel_case_types)]
#[derive(Clone, Copy, Debug, PartialEq, Eq, Structural)]
pub enum AcmdCategory {
    ACMD_GAME,
    ACMD_EFFECT,
    ACMD_SOUND,
    ACMD_EXPRESSION,
}

/// A value the host hashes into a script or agent key: a string literal
/// hashed when the plan runs, a named constant holding a precomputed key,
/// or an expression the host evaluates to a raw key.
#[derive(Debug, PartialEq, Eq)]
pub enum Hashable {
    Literal(Vec<u8>),
    Constant(Vec<u8>),
    Hashed(Expr),
}

/// Where an address-based hook's symbol lives: inside a lazily loaded
/// module looked up by name, or in the statically linked image.
#[derive(Debug, PartialEq, Eq)]
pub enum HookModule {
    Lazy(Vec<u8>),
    Static,
}

/// The symbol an address-based hook replaces.
#[derive(Debug, PartialEq, Eq)]
pub enum HookSymbol {
    /// An address already resolved at declaration time.
    Resolved(u64),
    /// A symbol name for the registry to resolve.
    Unresolved(Vec<u8>),
}

/// Parameters of an address-based hook declaration.
#[derive(Debug, PartialEq, Eq)]
pub struct HookAttrs {
    pub module: HookModule,
    pub symbol: HookSymbol,
}

/// Parameters of an animation-command script replacement: the agent the
/// scripts belong to, the script keys replaced (one record may span
/// several), the category, and the ordering flag the registry interprets.
#[derive(Debug, PartialEq, Eq)]
pub struct AcmdAttrs {
    pub agent: Hashable,
    pub scripts: Vec<Hashable>,
    pub category: AcmdCategory,
    pub low_priority: bool,
}

impl AcmdAttrs {
    /// A declaration is well formed when it names at least one script.
    pub open spec fn wf(&self) -> bool {
        self.scripts@.len() >= 1
    }

    /// Only a replacement that maps to exactly one underlying script key
    /// may generate an original-routine accessor.
    pub open spec fn can_call_original(&self) -> bool {
        self.scripts@.len() == 1
    }
}

/// Parameters of a status-condition script replacement.
#[derive(Debug, PartialEq, Eq)]
pub struct StatusAttrs {
    pub agent: Hashable,
    pub status: LuaConstant,
    pub condition: LuaConstant,
    pub low_priority: bool,
}

/// Parameters of a status-condition replacement shared by all agents.
/// With a non-empty symbol the replacement is additionally bound to that
/// symbol in the common module.
#[derive(Debug, PartialEq, Eq)]
pub struct CommonStatusAttrs {
    pub status: LuaConstant,
    pub condition: LuaConstant,
    pub symbol: Option<Vec<u8>>,
}

impl CommonStatusAttrs {
    /// Whether the declaration carries a usable symbol binding.
    pub open spec fn has_symbol(&self) -> bool {
        match self.symbol {
            Some(s) => s@.len() > 0,
            None => false,
        }
    }
}

/// Parameters of a per-frame agent logic replacement. Without an agent
/// the replacement applies globally, through the common module's frame
/// symbol. A replacement that overrides suppresses the original; one
/// that observes runs and then returns the original's result.
#[derive(Debug, PartialEq, Eq)]
pub struct AgentFrameAttrs {
    pub agent: Option<LuaConstant>,
    pub on_main: bool,
    pub is_replace: bool,
}

/// Parameters of a per-frame observation callback.
#[derive(Clone, Copy, Debug, PartialEq, Eq, Structural)]
pub struct AgentFrameCallbackAttrs {
    pub on_main: bool,
}

/// Mathematical view of [`StaticSymbol`].
pub enum StaticSymbolV {
    Resolved(u64),
    Unresolved(Seq<u8>),
}

/// Mathematical view of [`LuaConstant`].
pub enum LuaConstantV {
    Symbolic(Seq<u8>),
    Evaluated(i32),
}

/// Mathematical view of [`Hashable`].
pub enum HashableV {
    Literal(Seq<u8>),
    Constant(Seq<u8>),
    Hashed(crate::ast::ExprV),
}

/// Mathematical view of [`HookModule`].
pub enum HookModuleV {
    Lazy(Seq<u8>),
    Static,
}

/// Mathematical view of [`HookSymbol`].
pub enum HookSymbolV {
    Resolved(u64),
    Unresolved(Seq<u8>),
}

impl View for StaticSymbol {
    type V = StaticSymbolV;

    open spec fn view(&self) -> StaticSymbolV {
        match self {
            StaticSymbol::Resolved(a) => StaticSymbolV::Resolved(*a),
            StaticSymbol::Unresolved(s) => StaticSymbolV::Unresolved(s@),
        }
    }
}

impl View for LuaConstant {
    type V = LuaConstantV;

    open spec fn view(&self) -> LuaConstantV {
        match self {
            LuaConstant::Symbolic(s) => LuaConstantV::Symbolic(s@),
            LuaConstant::Evaluated(v) => LuaConstantV::Evaluated(*v),
        }
    }
}

impl View for Hashable {
    type V = HashableV;

    open spec fn view(&self) -> HashableV {
        match self {
            Hashable::Literal(s) => HashableV::Literal(s@),
            Hashable::Constant(s) => HashableV::Constant(s@),
            Hashable::Hashed(e) => HashableV::Hashed(e@),
        }
    }
}

impl View for HookModule {
    type V = HookModuleV;

    open spec fn view(&self) -> HookModuleV {
        match self {
            HookModule::Lazy(s) => HookModuleV::Lazy(s@),
            HookModule::Static => HookModuleV::Static,
        }
    }
}

impl View for HookSymbol {
    type V = HookSymbolV;

    open spec fn view(&self) -> HookSymbolV {
        match self {
            HookSymbol::Resolved(a) => HookSymbolV::Resolved(*a),
            HookSymbol::Unresolved(s) => HookSymbolV::Unresolved(s@),
        }
    }
}

/// Copy a hashable key; the copy has the same view.
pub fn clone_hashable(h: &Hashable) -> (r: Hashable)
    ensures
        r@ == h@,
{
    match h {
        Hashable::Literal(s) => Hashable::Literal(crate::bytes::clone_bytes(s)),
        Hashable::Constant(s) => Hashable::Constant(crate::bytes::clone_bytes(s)),
        Hashable::Hashed(e) => Hashable::Hashed(crate::ast::clone_expr(e)),
    }
}

/// Copy an interpreter constant; the copy has the same view.
pub fn clone_lua_constant(c: &LuaConstant) -> (r: LuaConstant)
    ensures
        r@ == c@,
{
    match c {
        LuaConstant::Symbolic(s) => LuaConstant::Symbolic(crate::bytes::clone_bytes(s)),
        LuaConstant::Evaluated(v) => LuaConstant::Evaluated(*v),
    }
}

} // verus!
