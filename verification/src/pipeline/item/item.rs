use vstd::prelude::*;

verus! {

/// What a standard pipeline item does.
#[derive(Debug, Copy, Clone, PartialEq, Eq, Structural)]
pub enum ItemCall {
    Add,
    Sub,
    Mul,
    Div,
    Mod,
    Max,
    Min,
    Floor,
    Ceil,
    Round,
    Abs,
    Sqrt,
    Cbrt,
    Pow,
    Root,
    IsEmail,
    IsHexColor,
    IsSecurePassword,
    IsNumeric,
    IsAlphanumeric,
    IsAlphabetic,
    IsSuffixOf,
    HasSuffix,
    IsPrefixOf,
    HasPrefix,
    RegexMatch,
    Identity,
    ConnectIdentity,
}

/// A pipeline item that was defined in a namespace.
#[derive(Debug)]
pub struct Item {
    pub path: Vec<String>,
    pub call: ItemCall,
}

} // verus!
