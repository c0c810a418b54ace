use vstd::prelude::*;
use crate::collections::names::text_eq;

verus! {

pub const CREATE: u32 = 0x1;
pub const UPDATE: u32 = 0x2;
pub const DELETE: u32 = 0x4;
pub const FIND: u32 = 0x8;
pub const CONNECT: u32 = 0x10;
pub const DISCONNECT: u32 = 0x20;
pub const SET: u32 = 0x40;
pub const JOIN: u32 = 0x80;
pub const UPSERT: u32 = 0x3;
pub const CONNECT_OR_CREATE: u32 = 0x11;
pub const JOIN_CREATE: u32 = 0x81;
pub const JOIN_DELETE: u32 = 0x84;
pub const SINGLE: u32 = 0x100;
pub const MANY: u32 = 0x200;
pub const ENTRY: u32 = 0x400;
pub const NESTED: u32 = 0x800;
pub const PROGRAM_CODE: u32 = 0x1000;
pub const INTERNAL_POSITION: u32 = 0x2000;

pub const NESTED_CREATE_ACTION: u32 = 0x901;
pub const NESTED_UPDATE_ACTION: u32 = 0x902;
pub const NESTED_UPSERT_ACTION: u32 = 0x903;
pub const NESTED_DELETE_ACTION: u32 = 0x904;
pub const NESTED_CONNECT_ACTION: u32 = 0x910;
pub const NESTED_CONNECT_OR_CREATE_ACTION: u32 = 0x911;
pub const NESTED_DISCONNECT_ACTION: u32 = 0x920;
pub const NESTED_SET_ACTION: u32 = 0x940;
pub const NESTED_UPDATE_MANY_ACTION: u32 = 0xa02;
pub const NESTED_DELETE_MANY_ACTION: u32 = 0xa04;

/// The operation under way: what is done, to one record or to many, and from
/// where it was started.
#[derive(Debug, Copy, Clone, PartialEq, Eq, Structural)]
pub struct Action(pub u32);

/// What a nested payload asks to be done with the records of a relation.
#[derive(Debug, Copy, Clone, PartialEq, Eq, Structural)]
pub enum NestedAction {
    Create,
    Connect,
    SetLinks,
    ConnectOrCreate,
    Disconnect,
    Update,
    UpdateMany,
    Upsert,
    Delete,
    DeleteMany,
}

impl NestedAction {
    /// The name under which a payload asks for this action.
    pub open spec fn spec_name(self) -> Seq<char> {
        match self {
            NestedAction::Create => "create"@,
            NestedAction::Connect => "connect"@,
            NestedAction::SetLinks => "set"@,
            NestedAction::ConnectOrCreate => "connectOrCreate"@,
            NestedAction::Disconnect => "disconnect"@,
            NestedAction::Update => "update"@,
            NestedAction::UpdateMany => "updateMany"@,
            NestedAction::Upsert => "upsert"@,
            NestedAction::Delete => "delete"@,
            NestedAction::DeleteMany => "deleteMany"@,
        }
    }

    /// The action bits that stand for this nested action.
    pub open spec fn spec_bits(self) -> u32 {
        match self {
            NestedAction::Create => NESTED_CREATE_ACTION,
            NestedAction::Connect => NESTED_CONNECT_ACTION,
            NestedAction::SetLinks => NESTED_SET_ACTION,
            NestedAction::ConnectOrCreate => NESTED_CONNECT_OR_CREATE_ACTION,
            NestedAction::Disconnect => NESTED_DISCONNECT_ACTION,
            NestedAction::Update => NESTED_UPDATE_ACTION,
            NestedAction::UpdateMany => NESTED_UPDATE_MANY_ACTION,
            NestedAction::Upsert => NESTED_UPSERT_ACTION,
            NestedAction::Delete => NESTED_DELETE_ACTION,
            NestedAction::DeleteMany => NESTED_DELETE_MANY_ACTION,
        }
    }

    /// The nested action that `bits` stand for, if any.
    pub open spec fn spec_from_bits(bits: u32) -> Option<NestedAction> {
        if bits == NESTED_CREATE_ACTION {
            Some(NestedAction::Create)
        } else if bits == NESTED_CONNECT_ACTION {
            Some(NestedAction::Connect)
        } else if bits == NESTED_SET_ACTION {
            Some(NestedAction::SetLinks)
        } else if bits == NESTED_CONNECT_OR_CREATE_ACTION {
            Some(NestedAction::ConnectOrCreate)
        } else if bits == NESTED_DISCONNECT_ACTION {
            Some(NestedAction::Disconnect)
        } else if bits == NESTED_UPDATE_ACTION {
            Some(NestedAction::Update)
        } else if bits == NESTED_UPDATE_MANY_ACTION {
            Some(NestedAction::UpdateMany)
        } else if bits == NESTED_UPSERT_ACTION {
            Some(NestedAction::Upsert)
        } else if bits == NESTED_DELETE_ACTION {
            Some(NestedAction::Delete)
        } else if bits == NESTED_DELETE_MANY_ACTION {
            Some(NestedAction::DeleteMany)
        } else {
            None
        }
    }

    /// The nested action of a name, if the name is one of the ten.
    pub open spec fn spec_from_name(name: Seq<char>) -> Option<NestedAction> {
        if name == "create"@ {
            Some(NestedAction::Create)
        } else if name == "connect"@ {
            Some(NestedAction::Connect)
        } else if name == "set"@ {
            Some(NestedAction::SetLinks)
        } else if name == "connectOrCreate"@ {
            Some(NestedAction::ConnectOrCreate)
        } else if name == "disconnect"@ {
            Some(NestedAction::Disconnect)
        } else if name == "update"@ {
            Some(NestedAction::Update)
        } else if name == "updateMany"@ {
            Some(NestedAction::UpdateMany)
        } else if name == "upsert"@ {
            Some(NestedAction::Upsert)
        } else if name == "delete"@ {
            Some(NestedAction::Delete)
        } else if name == "deleteMany"@ {
            Some(NestedAction::DeleteMany)
        } else {
            None
        }
    }

    pub fn bits(self) -> (bits: u32)
        ensures
            bits == self.spec_bits(),
    {
        match self {
            NestedAction::Create => NESTED_CREATE_ACTION,
            NestedAction::Connect => NESTED_CONNECT_ACTION,
            NestedAction::SetLinks => NESTED_SET_ACTION,
            NestedAction::ConnectOrCreate => NESTED_CONNECT_OR_CREATE_ACTION,
            NestedAction::Disconnect => NESTED_DISCONNECT_ACTION,
            NestedAction::Update => NESTED_UPDATE_ACTION,
            NestedAction::UpdateMany => NESTED_UPDATE_MANY_ACTION,
            NestedAction::Upsert => NESTED_UPSERT_ACTION,
            NestedAction::Delete => NESTED_DELETE_ACTION,
            NestedAction::DeleteMany => NESTED_DELETE_MANY_ACTION,
        }
    }

    pub fn from_bits(bits: u32) -> (kind: Option<NestedAction>)
        ensures
            kind == Self::spec_from_bits(bits),
    {
        if bits == NESTED_CREATE_ACTION {
            Some(NestedAction::Create)
        } else if bits == NESTED_CONNECT_ACTION {
            Some(NestedAction::Connect)
        } else if bits == NESTED_SET_ACTION {
            Some(NestedAction::SetLinks)
        } else if bits == NESTED_CONNECT_OR_CREATE_ACTION {
            Some(NestedAction::ConnectOrCreate)
        } else if bits == NESTED_DISCONNECT_ACTION {
            Some(NestedAction::Disconnect)
        } else if bits == NESTED_UPDATE_ACTION {
            Some(NestedAction::Update)
        } else if bits == NESTED_UPDATE_MANY_ACTION {
            Some(NestedAction::UpdateMany)
        } else if bits == NESTED_UPSERT_ACTION {
            Some(NestedAction::Upsert)
        } else if bits == NESTED_DELETE_ACTION {
            Some(NestedAction::Delete)
        } else if bits == NESTED_DELETE_MANY_ACTION {
            Some(NestedAction::DeleteMany)
        } else {
            None
        }
    }

    pub fn from_name(name: &str) -> (kind: Option<NestedAction>)
        ensures
            kind == Self::spec_from_name(name@),
            kind matches Some(found) ==> found.spec_name() == name@,
    {
        if text_eq(name, "create") {
            Some(NestedAction::Create)
        } else if text_eq(name, "connect") {
            Some(NestedAction::Connect)
        } else if text_eq(name, "set") {
            Some(NestedAction::SetLinks)
        } else if text_eq(name, "connectOrCreate") {
            Some(NestedAction::ConnectOrCreate)
        } else if text_eq(name, "disconnect") {
            Some(NestedAction::Disconnect)
        } else if text_eq(name, "update") {
            Some(NestedAction::Update)
        } else if text_eq(name, "updateMany") {
            Some(NestedAction::UpdateMany)
        } else if text_eq(name, "upsert") {
            Some(NestedAction::Upsert)
        } else if text_eq(name, "delete") {
            Some(NestedAction::Delete)
        } else if text_eq(name, "deleteMany") {
            Some(NestedAction::DeleteMany)
        } else {
            None
        }
    }
}

impl Action {
    pub fn from_u32(bits: u32) -> (action: Action)
        ensures
            action.0 == bits,
    {
        Action(bits)
    }

    pub fn to_u32(&self) -> (bits: u32)
        ensures
            bits == self.0,
    {
        self.0
    }

    /// The nested action of a payload key.
    pub fn nested_action_from_name(name: &str) -> (action: Option<Action>)
        ensures
            action == match NestedAction::spec_from_name(name@) {
                Some(kind) => Some(Action(kind.spec_bits())),
                None => None,
            },
    {
        match NestedAction::from_name(name) {
            Some(kind) => Some(Action(kind.bits())),
            None => None,
        }
    }
}

} // verus!
