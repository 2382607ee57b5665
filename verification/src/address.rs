//! The address resolver: building a fully-qualified target from the
//! caller's own identity and an optional target-node override.

use vstd::prelude::*;
use vstd::string::StrSliceExecFns;

use crate::state::opt_text;
use crate::text::trim;
use crate::text::trimmed;

verus! {

/// The mathematical value of an address: four names.
pub ghost struct AddressModel {
    pub node: Seq<char>,
    pub process: Seq<char>,
    pub package: Seq<char>,
    pub publisher: Seq<char>,
}

/// A fully-qualified target: a node name plus the process identity
/// (process, package and publisher names). Two addresses with the same
/// four components name the same target.
#[derive(Debug)]
pub struct Address {
    pub node: String,
    pub process: String,
    pub package: String,
    pub publisher: String,
}

impl View for Address {
    type V = AddressModel;

    open spec fn view(&self) -> AddressModel {
        AddressModel {
            node: self.node@,
            process: self.process@,
            package: self.package@,
            publisher: self.publisher@,
        }
    }
}

/// The node a dispatch goes to: the override when it holds anything after
/// trimming, else the caller's own node (self-loopback).
pub open spec fn resolved_node(own_node: Seq<char>, target: Option<Seq<char>>) -> Seq<char> {
    match target {
        None => own_node,
        Some(t) => if trimmed(t).len() == 0 {
            own_node
        } else {
            trimmed(t)
        },
    }
}

/// Builds the target address for a dispatch. Only the node may differ from
/// the caller's own address: the process identity is always the caller's,
/// so a remote dispatch targets the same logical process on another node.
pub fn resolve_target(own: &Address, target_node: &Option<String>) -> (r: Address)
    ensures
        r@.node == resolved_node(own@.node, opt_text(*target_node)),
        r@.process == own@.process,
        r@.package == own@.package,
        r@.publisher == own@.publisher,
{
    let node = match target_node {
        None => own.node.clone(),
        Some(t) => {
            let tt = trim(t.as_str());
            if tt.as_str().is_empty() {
                own.node.clone()
            } else {
                tt
            }
        },
    };
    Address {
        node,
        process: own.process.clone(),
        package: own.package.clone(),
        publisher: own.publisher.clone(),
    }
}

} // verus!
