//! The kinds of data that an account's storage path can name.

use vstd::prelude::*;

verus! {

/// The kind of data behind a storage path.
#[derive(Clone, Copy, Debug, PartialEq, Eq, Structural)]
pub enum DataType {
    Code,
    Resource,
    TableItem,
    TableInfo,
}

/// The byte that was handed to [`DataType::from_index`] and names no kind.
#[derive(Clone, Copy, Debug, PartialEq, Eq, Structural)]
pub struct InvalidDataType {
    pub index: u8,
}

impl DataType {
    pub const LENGTH: usize = 2;

    /// The position of the kind in the order of declaration.
    pub open spec fn spec_type_index(self) -> u8 {
        match self {
            DataType::Code => 0,
            DataType::Resource => 1,
            DataType::TableItem => 2,
            DataType::TableInfo => 3,
        }
    }

    /// The kind that a stored index byte names: 0 for code, 2 for a
    /// resource, 3 for a table item, 4 for table information.
    pub open spec fn spec_from_index(idx: u8) -> Option<DataType> {
        if idx == 0 {
            Some(DataType::Code)
        } else if idx == 2 {
            Some(DataType::Resource)
        } else if idx == 3 {
            Some(DataType::TableItem)
        } else if idx == 4 {
            Some(DataType::TableInfo)
        } else {
            None
        }
    }

    pub fn is_code(self) -> (b: bool)
        ensures
            b == (self == DataType::Code),
    {
        matches!(self, DataType::Code)
    }

    pub fn is_resource(self) -> (b: bool)
        ensures
            b == (self == DataType::Resource),
    {
        matches!(self, DataType::Resource)
    }

    #[inline]
    pub fn type_index(self) -> (idx: u8)
        ensures
            idx == self.spec_type_index(),
    {
        match self {
            DataType::Code => 0,
            DataType::Resource => 1,
            DataType::TableItem => 2,
            DataType::TableInfo => 3,
        }
    }

    /// Every kind has a storage root of its own in the account state.
    #[inline]
    pub fn storage_index(self) -> (idx: usize)
        ensures
            idx == self.spec_type_index(),
    {
        self.type_index() as usize
    }

    /// Reads a kind back from its stored index byte; any byte that names no
    /// kind is handed back as the error.
    pub fn from_index(idx: u8) -> (kind: Result<DataType, InvalidDataType>)
        ensures
            match kind {
                Ok(k) => Self::spec_from_index(idx) == Some(k),
                Err(e) => Self::spec_from_index(idx).is_none() && e.index == idx,
            },
    {
        match idx {
            0 => Ok(DataType::Code),
            2 => Ok(DataType::Resource),
            3 => Ok(DataType::TableItem),
            4 => Ok(DataType::TableInfo),
            _ => Err(InvalidDataType { index: idx }),
        }
    }
}

} // verus!
