//! Where each object's output goes.

use vstd::prelude::*;
use crate::kind::{ObjectType, kind_name};
use crate::marker::DatabaseObject;

verus! {

/// The file name of an object: `<name>.sql` when only names are asked for or
/// the schema is empty, `<schema>.<name>.sql` otherwise.
pub open spec fn file_name_of(schema: Seq<char>, name: Seq<char>, only_names: bool) -> Seq<char> {
    if only_names || schema.len() == 0 {
        name + ".sql"@
    } else {
        schema + "."@ + name + ".sql"@
    }
}

/// The path of an object's output under `root`: `<root>/<kind>/<file name>`.
pub open spec fn path_of(
    root: Seq<char>,
    k: ObjectType,
    schema: Seq<char>,
    name: Seq<char>,
    only_names: bool,
) -> Seq<char> {
    root + "/"@ + kind_name(k) + "/"@ + file_name_of(schema, name, only_names)
}

/// An output directory with one trailing `/` or `\` taken off.
pub open spec fn trimmed_dir(dir: Seq<char>) -> Seq<char> {
    if dir.len() > 0 && (dir.last() == '/' || dir.last() == '\\') {
        dir.drop_last()
    } else {
        dir
    }
}

impl DatabaseObject {
    /// The file name of this object's output.
    pub fn file_name(&self, only_names: bool) -> (r: String)
        ensures
            r@ == file_name_of(self.schema@, self.name@, only_names),
    {
        let mut r = String::new();
        if !(only_names || self.schema.as_str().unicode_len() == 0) {
            r.append(self.schema.as_str());
            r.append(".");
        }
        r.append(self.name.as_str());
        r.append(".sql");
        proof {
            if !(only_names || self.schema@.len() == 0) {
                assert(r@ =~= self.schema@ + "."@ + self.name@ + ".sql"@);
            } else {
                assert(r@ =~= self.name@ + ".sql"@);
            }
        }
        r
    }

    /// The path of this object's output under `root`.
    pub fn path_in(&self, root: &str, only_names: bool) -> (r: String)
        ensures
            r@ == path_of(root@, self.object_type, self.schema@, self.name@, only_names),
    {
        let mut r = root.to_owned();
        r.append("/");
        r.append(self.object_type.name());
        r.append("/");
        let f = self.file_name(only_names);
        r.append(f.as_str());
        assert(r@ =~= path_of(root@, self.object_type, self.schema@, self.name@, only_names));
        r
    }
}

/// Takes one trailing `/` or `\` off an output directory.
pub fn trim_dir(dir: &str) -> (r: String)
    ensures
        r@ == trimmed_dir(dir@),
{
    let n = dir.unicode_len();
    if n > 0 {
        let c = dir.get_char(n - 1);
        if c == '/' || c == '\\' {
            let r = dir.substring_char(0, n - 1).to_owned();
            assert(r@ =~= dir@.drop_last());
            return r;
        }
    }
    dir.to_owned()
}

} // verus!
