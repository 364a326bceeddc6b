//! The closed set of object kinds that a marker line can name.

use vstd::prelude::*;
use crate::text::same_text;

verus! {

/// A category of database object.
#[derive(Debug, Clone, Copy, PartialEq, Eq, Structural)]
pub enum ObjectType {
    Database,
    DatabaseRole,
    DdlTrigger,
    Index,
    Schema,
    Sequence,
    StoredProcedure,
    Synonym,
    Table,
    Trigger,
    User,
    UserDefinedDataType,
    UserDefinedFunction,
    View,
}

/// The display name of a kind; it is also the name of its output directory.
pub open spec fn kind_name(k: ObjectType) -> Seq<char> {
    match k {
        ObjectType::Database => "Database"@,
        ObjectType::DatabaseRole => "DatabaseRole"@,
        ObjectType::DdlTrigger => "DdlTrigger"@,
        ObjectType::Index => "Index"@,
        ObjectType::Schema => "Schema"@,
        ObjectType::Sequence => "Sequence"@,
        ObjectType::StoredProcedure => "StoredProcedure"@,
        ObjectType::Synonym => "Synonym"@,
        ObjectType::Table => "Table"@,
        ObjectType::Trigger => "Trigger"@,
        ObjectType::User => "User"@,
        ObjectType::UserDefinedDataType => "UserDefinedDataType"@,
        ObjectType::UserDefinedFunction => "UserDefinedFunction"@,
        ObjectType::View => "View"@,
    }
}

/// The kind whose display name is exactly `t` (case-sensitive), if any.
pub open spec fn kind_of(t: Seq<char>) -> Option<ObjectType> {
    if t == "Database"@ {
        Some(ObjectType::Database)
    } else if t == "DatabaseRole"@ {
        Some(ObjectType::DatabaseRole)
    } else if t == "DdlTrigger"@ {
        Some(ObjectType::DdlTrigger)
    } else if t == "Index"@ {
        Some(ObjectType::Index)
    } else if t == "Schema"@ {
        Some(ObjectType::Schema)
    } else if t == "Sequence"@ {
        Some(ObjectType::Sequence)
    } else if t == "StoredProcedure"@ {
        Some(ObjectType::StoredProcedure)
    } else if t == "Synonym"@ {
        Some(ObjectType::Synonym)
    } else if t == "Table"@ {
        Some(ObjectType::Table)
    } else if t == "Trigger"@ {
        Some(ObjectType::Trigger)
    } else if t == "User"@ {
        Some(ObjectType::User)
    } else if t == "UserDefinedDataType"@ {
        Some(ObjectType::UserDefinedDataType)
    } else if t == "UserDefinedFunction"@ {
        Some(ObjectType::UserDefinedFunction)
    } else if t == "View"@ {
        Some(ObjectType::View)
    } else {
        None
    }
}

/// Reveals the characters of every display name.
proof fn reveal_kind_names()
    ensures
        "Database"@ =~= seq!['D', 'a', 't', 'a', 'b', 'a', 's', 'e'],
        "DatabaseRole"@ =~= seq!['D', 'a', 't', 'a', 'b', 'a', 's', 'e', 'R', 'o', 'l', 'e'],
        "DdlTrigger"@ =~= seq!['D', 'd', 'l', 'T', 'r', 'i', 'g', 'g', 'e', 'r'],
        "Index"@ =~= seq!['I', 'n', 'd', 'e', 'x'],
        "Schema"@ =~= seq!['S', 'c', 'h', 'e', 'm', 'a'],
        "Sequence"@ =~= seq!['S', 'e', 'q', 'u', 'e', 'n', 'c', 'e'],
        "StoredProcedure"@ =~= seq![
            'S', 't', 'o', 'r', 'e', 'd', 'P', 'r', 'o', 'c', 'e', 'd', 'u', 'r', 'e',
        ],
        "Synonym"@ =~= seq!['S', 'y', 'n', 'o', 'n', 'y', 'm'],
        "Table"@ =~= seq!['T', 'a', 'b', 'l', 'e'],
        "Trigger"@ =~= seq!['T', 'r', 'i', 'g', 'g', 'e', 'r'],
        "User"@ =~= seq!['U', 's', 'e', 'r'],
        "UserDefinedDataType"@ =~= seq![
            'U', 's', 'e', 'r', 'D', 'e', 'f', 'i', 'n', 'e', 'd', 'D', 'a', 't', 'a', 'T', 'y',
            'p', 'e',
        ],
        "UserDefinedFunction"@ =~= seq![
            'U', 's', 'e', 'r', 'D', 'e', 'f', 'i', 'n', 'e', 'd', 'F', 'u', 'n', 'c', 't', 'i',
            'o', 'n',
        ],
        "View"@ =~= seq!['V', 'i', 'e', 'w'],
{
    reveal_strlit("Database");
    reveal_strlit("DatabaseRole");
    reveal_strlit("DdlTrigger");
    reveal_strlit("Index");
    reveal_strlit("Schema");
    reveal_strlit("Sequence");
    reveal_strlit("StoredProcedure");
    reveal_strlit("Synonym");
    reveal_strlit("Table");
    reveal_strlit("Trigger");
    reveal_strlit("User");
    reveal_strlit("UserDefinedDataType");
    reveal_strlit("UserDefinedFunction");
    reveal_strlit("View");
}

/// Every display name names its own kind and no other, and holds no white
/// space.
pub proof fn lemma_kind_name(k: ObjectType)
    ensures
        kind_of(kind_name(k)) == Some(k),
        kind_name(k).len() > 0,
        forall|i: int| 0 <= i < kind_name(k).len() ==> !crate::text::is_space(#[trigger] kind_name(k)[i]),
{
    reveal_kind_names();
    match k {
        ObjectType::Database => {

        },
        ObjectType::DatabaseRole => {
            assert("DatabaseRole"@.len() != "Database"@.len());
        },
        ObjectType::DdlTrigger => {
            assert("DdlTrigger"@.len() != "Database"@.len());
            assert("DdlTrigger"@.len() != "DatabaseRole"@.len());
        },
        ObjectType::Index => {
            assert("Index"@.len() != "Database"@.len());
            assert("Index"@.len() != "DatabaseRole"@.len());
            assert("Index"@.len() != "DdlTrigger"@.len());
        },
        ObjectType::Schema => {
            assert("Schema"@.len() != "Database"@.len());
            assert("Schema"@.len() != "DatabaseRole"@.len());
            assert("Schema"@.len() != "DdlTrigger"@.len());
            assert("Schema"@.len() != "Index"@.len());
        },
        ObjectType::Sequence => {
            assert("Sequence"@[0] != "Database"@[0]);
            assert("Sequence"@.len() != "DatabaseRole"@.len());
            assert("Sequence"@.len() != "DdlTrigger"@.len());
            assert("Sequence"@.len() != "Index"@.len());
            assert("Sequence"@.len() != "Schema"@.len());
        },
        ObjectType::StoredProcedure => {
            assert("StoredProcedure"@.len() != "Database"@.len());
            assert("StoredProcedure"@.len() != "DatabaseRole"@.len());
            assert("StoredProcedure"@.len() != "DdlTrigger"@.len());
            assert("StoredProcedure"@.len() != "Index"@.len());
            assert("StoredProcedure"@.len() != "Schema"@.len());
            assert("StoredProcedure"@.len() != "Sequence"@.len());
        },
        ObjectType::Synonym => {
            assert("Synonym"@.len() != "Database"@.len());
            assert("Synonym"@.len() != "DatabaseRole"@.len());
            assert("Synonym"@.len() != "DdlTrigger"@.len());
            assert("Synonym"@.len() != "Index"@.len());
            assert("Synonym"@.len() != "Schema"@.len());
            assert("Synonym"@.len() != "Sequence"@.len());
            assert("Synonym"@.len() != "StoredProcedure"@.len());
        },
        ObjectType::Table => {
            assert("Table"@.len() != "Database"@.len());
            assert("Table"@.len() != "DatabaseRole"@.len());
            assert("Table"@.len() != "DdlTrigger"@.len());
            assert("Table"@[0] != "Index"@[0]);
            assert("Table"@.len() != "Schema"@.len());
            assert("Table"@.len() != "Sequence"@.len());
            assert("Table"@.len() != "StoredProcedure"@.len());
            assert("Table"@.len() != "Synonym"@.len());
        },
        ObjectType::Trigger => {
            assert("Trigger"@.len() != "Database"@.len());
            assert("Trigger"@.len() != "DatabaseRole"@.len());
            assert("Trigger"@.len() != "DdlTrigger"@.len());
            assert("Trigger"@.len() != "Index"@.len());
            assert("Trigger"@.len() != "Schema"@.len());
            assert("Trigger"@.len() != "Sequence"@.len());
            assert("Trigger"@.len() != "StoredProcedure"@.len());
            assert("Trigger"@[0] != "Synonym"@[0]);
            assert("Trigger"@.len() != "Table"@.len());
        },
        ObjectType::User => {
            assert("User"@.len() != "Database"@.len());
            assert("User"@.len() != "DatabaseRole"@.len());
            assert("User"@.len() != "DdlTrigger"@.len());
            assert("User"@.len() != "Index"@.len());
            assert("User"@.len() != "Schema"@.len());
            assert("User"@.len() != "Sequence"@.len());
            assert("User"@.len() != "StoredProcedure"@.len());
            assert("User"@.len() != "Synonym"@.len());
            assert("User"@.len() != "Table"@.len());
            assert("User"@.len() != "Trigger"@.len());
        },
        ObjectType::UserDefinedDataType => {
            assert("UserDefinedDataType"@.len() != "Database"@.len());
            assert("UserDefinedDataType"@.len() != "DatabaseRole"@.len());
            assert("UserDefinedDataType"@.len() != "DdlTrigger"@.len());
            assert("UserDefinedDataType"@.len() != "Index"@.len());
            assert("UserDefinedDataType"@.len() != "Schema"@.len());
            assert("UserDefinedDataType"@.len() != "Sequence"@.len());
            assert("UserDefinedDataType"@.len() != "StoredProcedure"@.len());
            assert("UserDefinedDataType"@.len() != "Synonym"@.len());
            assert("UserDefinedDataType"@.len() != "Table"@.len());
            assert("UserDefinedDataType"@.len() != "Trigger"@.len());
            assert("UserDefinedDataType"@.len() != "User"@.len());
        },
        ObjectType::UserDefinedFunction => {
            assert("UserDefinedFunction"@.len() != "Database"@.len());
            assert("UserDefinedFunction"@.len() != "DatabaseRole"@.len());
            assert("UserDefinedFunction"@.len() != "DdlTrigger"@.len());
            assert("UserDefinedFunction"@.len() != "Index"@.len());
            assert("UserDefinedFunction"@.len() != "Schema"@.len());
            assert("UserDefinedFunction"@.len() != "Sequence"@.len());
            assert("UserDefinedFunction"@.len() != "StoredProcedure"@.len());
            assert("UserDefinedFunction"@.len() != "Synonym"@.len());
            assert("UserDefinedFunction"@.len() != "Table"@.len());
            assert("UserDefinedFunction"@.len() != "Trigger"@.len());
            assert("UserDefinedFunction"@.len() != "User"@.len());
            assert("UserDefinedFunction"@[11] != "UserDefinedDataType"@[11]);
        },
        ObjectType::View => {
            assert("View"@.len() != "Database"@.len());
            assert("View"@.len() != "DatabaseRole"@.len());
            assert("View"@.len() != "DdlTrigger"@.len());
            assert("View"@.len() != "Index"@.len());
            assert("View"@.len() != "Schema"@.len());
            assert("View"@.len() != "Sequence"@.len());
            assert("View"@.len() != "StoredProcedure"@.len());
            assert("View"@.len() != "Synonym"@.len());
            assert("View"@.len() != "Table"@.len());
            assert("View"@.len() != "Trigger"@.len());
            assert("View"@[0] != "User"@[0]);
            assert("View"@.len() != "UserDefinedDataType"@.len());
            assert("View"@.len() != "UserDefinedFunction"@.len());
        },
    }
}

impl ObjectType {
    /// The display name of this kind.
    pub fn name(&self) -> (r: &'static str)
        ensures
            r@ == kind_name(*self),
    {
        match self {
            ObjectType::Database => "Database",
            ObjectType::DatabaseRole => "DatabaseRole",
            ObjectType::DdlTrigger => "DdlTrigger",
            ObjectType::Index => "Index",
            ObjectType::Schema => "Schema",
            ObjectType::Sequence => "Sequence",
            ObjectType::StoredProcedure => "StoredProcedure",
            ObjectType::Synonym => "Synonym",
            ObjectType::Table => "Table",
            ObjectType::Trigger => "Trigger",
            ObjectType::User => "User",
            ObjectType::UserDefinedDataType => "UserDefinedDataType",
            ObjectType::UserDefinedFunction => "UserDefinedFunction",
            ObjectType::View => "View",
        }
    }

    /// The display name of this kind, as an owned string.
    pub fn to_string(&self) -> (r: String)
        ensures
            r@ == kind_name(*self),
    {
        self.name().to_owned()
    }

    /// The kind whose display name is exactly `t`, if any.
    pub fn from_name(t: &str) -> (r: Option<ObjectType>)
        ensures
            r == kind_of(t@),
    {
        if same_text(t, "Database") {
            Some(ObjectType::Database)
        } else if same_text(t, "DatabaseRole") {
            Some(ObjectType::DatabaseRole)
        } else if same_text(t, "DdlTrigger") {
            Some(ObjectType::DdlTrigger)
        } else if same_text(t, "Index") {
            Some(ObjectType::Index)
        } else if same_text(t, "Schema") {
            Some(ObjectType::Schema)
        } else if same_text(t, "Sequence") {
            Some(ObjectType::Sequence)
        } else if same_text(t, "StoredProcedure") {
            Some(ObjectType::StoredProcedure)
        } else if same_text(t, "Synonym") {
            Some(ObjectType::Synonym)
        } else if same_text(t, "Table") {
            Some(ObjectType::Table)
        } else if same_text(t, "Trigger") {
            Some(ObjectType::Trigger)
        } else if same_text(t, "User") {
            Some(ObjectType::User)
        } else if same_text(t, "UserDefinedDataType") {
            Some(ObjectType::UserDefinedDataType)
        } else if same_text(t, "UserDefinedFunction") {
            Some(ObjectType::UserDefinedFunction)
        } else if same_text(t, "View") {
            Some(ObjectType::View)
        } else {
            None
        }
    }
}

} // verus!
