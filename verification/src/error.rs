use vstd::prelude::*;

use crate::peripheral::PeripheralType;

verus! {

/// The error that a read of target memory reported, by its description.
#[derive(Debug, PartialEq, Eq)]
pub struct MemoryError {
    pub message: String,
}

impl MemoryError {
    /// Returns an error with the same description.
    pub fn duplicate(&self) -> (r: MemoryError)
        ensures
            r == *self,
    {
        MemoryError { message: self.message.clone() }
    }
}

/// An error of the access port, by its description.
#[derive(Debug, PartialEq, Eq)]
pub struct AccessPortError {
    pub message: String,
}

/// The errors that ROM table discovery reports.
#[derive(Debug, PartialEq, Eq)]
pub enum RomTableError {
    /// The component is not a valid ROM table.
    NotARomtable,
    /// An error with the access port occurred.
    AccessPort(AccessPortError),
    /// The CoreSight component could not be identified.
    CSComponentIdentification,
    /// The ROM table could not be read.
    Memory(MemoryError),
    /// The requested component was not found.
    ComponentNotFound(PeripheralType),
    /// There are no components to operate on.
    NoComponents,
}

} // verus!
