//! Package identifiers, as the Supervisor names the packages it cannot find.

use vstd::prelude::*;

use crate::text::cat3;

verus! {

/// A package identifier `origin/name[/version[/release]]`.
#[derive(Debug)]
pub struct PackageIdent {
    pub origin: String,
    pub name: String,
    pub version: Option<String>,
    pub release: Option<String>,
}

/// An identifier is fully qualified when both its version and its release are given.
pub open spec fn fully_qualified_spec(id: PackageIdent) -> bool {
    id.version is Some && id.release is Some
}

/// The text of an identifier: origin and name, then the version when there is
/// one, then the release when there is a version and a release.
pub open spec fn ident_text(id: PackageIdent) -> Seq<char> {
    match (id.version, id.release) {
        (Some(v), Some(r)) => id.origin@ + "/"@ + id.name@ + "/"@ + v@ + "/"@ + r@,
        (Some(v), None) => id.origin@ + "/"@ + id.name@ + "/"@ + v@,
        (None, _) => id.origin@ + "/"@ + id.name@,
    }
}

/// An identifier is fully qualified exactly when it has both a version and a
/// release.
pub proof fn fully_qualified_means_version_and_release(id: PackageIdent)
    ensures
        fully_qualified_spec(id) <==> (id.version is Some && id.release is Some),
{
}

/// The text of an identifier is `origin/name`, followed by `/version` when
/// there is a version, followed by `/release` when there are both.
pub proof fn ident_text_parts(id: PackageIdent)
    ensures
        id.version is None ==> ident_text(id) == id.origin@ + seq!['/'] + id.name@,
        (id.version is Some && id.release is None) ==>
            ident_text(id) == id.origin@ + seq!['/'] + id.name@ + seq!['/'] + id.version->0@,
        (id.version is Some && id.release is Some) ==>
            ident_text(id) == id.origin@ + seq!['/'] + id.name@ + seq!['/'] + id.version->0@
                + seq!['/'] + id.release->0@,
{
    reveal_strlit("/");
    assert("/"@ =~= seq!['/']);
}

impl PackageIdent {
    /// Builds an identifier from its parts.
    pub fn new(origin: String, name: String, version: Option<String>, release: Option<String>) -> (res: PackageIdent)
        ensures
            res.origin == origin,
            res.name == name,
            res.version == version,
            res.release == release,
    {
        PackageIdent { origin, name, version, release }
    }

    /// Whether both the version and the release are given.
    pub fn fully_qualified(&self) -> (res: bool)
        ensures
            res == fully_qualified_spec(*self),
    {
        self.version.is_some() && self.release.is_some()
    }

    /// The identifier written as `origin/name[/version[/release]]`.
    pub fn to_string(&self) -> (res: String)
        ensures
            res@ == ident_text(*self),
    {
        let head = cat3(self.origin.as_str(), "/", self.name.as_str());
        match &self.version {
            Some(v) => match &self.release {
                Some(r) => {
                    let with_version = cat3(head.as_str(), "/", v.as_str());
                    cat3(with_version.as_str(), "/", r.as_str())
                },
                None => cat3(head.as_str(), "/", v.as_str()),
            },
            None => head,
        }
    }
}

} // verus!
