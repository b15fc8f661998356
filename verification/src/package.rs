//! Package descriptors and the exact pin syntax of install arguments.

use vstd::prelude::*;

verus! {

/// A package to install: a name and an optional version constraint, where
/// the empty string means "unconstrained".
#[derive(Debug)]
pub struct PythonPackage {
    pub name: String,
    pub version: String,
}

/// The argument handed to the package manager for a package: the bare name
/// when the version is unconstrained, otherwise `name==version`.
pub open spec fn install_arg_spec(name: Seq<char>, version: Seq<char>) -> Seq<char> {
    if version.len() == 0 {
        name
    } else {
        name + seq!['=', '='] + version
    }
}

impl PythonPackage {
    /// A descriptor with no version constraint.
    pub fn new(name: String) -> (r: PythonPackage)
        ensures
            r.name@ == name@,
            r.version@ == Seq::<char>::empty(),
    {
        let version = String::new();
        proof {
            assert(version@ =~= Seq::<char>::empty());
        }
        PythonPackage { name, version }
    }

    /// The install argument for this descriptor, pinned exactly when a
    /// version is present.
    pub fn install_arg(&self) -> (r: String)
        ensures
            r@ == install_arg_spec(self.name@, self.version@),
    {
        if self.version.as_str().unicode_len() == 0 {
            let r = self.name.clone();
            proof {
                assert(r@ =~= install_arg_spec(self.name@, self.version@));
            }
            r
        } else {
            let mut r = self.name.clone();
            r.append("==");
            r.append(self.version.as_str());
            proof {
                reveal_strlit("==");
                assert(("==")@ =~= seq!['=', '=']);
                assert(r@ =~= install_arg_spec(self.name@, self.version@));
            }
            r
        }
    }
}

} // verus!
