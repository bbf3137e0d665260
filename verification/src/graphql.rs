//! Plain values behind the GraphQL schema: enumerations with their wire
//! names, and the small result and input objects.

use vstd::prelude::*;
use crate::storage::{CompletedUploadPart, PresignedHeader};
use crate::text::str_eq;

verus! {

/// Per-object visibility override.
#[derive(Clone, Copy, Debug, PartialEq, Eq, Structural)]
pub enum PublicityOverride {
    Default,
    Public,
    Private,
    SelectedUsers,
}

impl PublicityOverride {
    pub open spec fn wire(self) -> Seq<char> {
        match self {
            PublicityOverride::Default => "default"@,
            PublicityOverride::Public => "public"@,
            PublicityOverride::Private => "private"@,
            PublicityOverride::SelectedUsers => "selected_users"@,
        }
    }

    pub open spec fn from_wire(s: Seq<char>) -> Option<PublicityOverride> {
        if s == "default"@ {
            Some(PublicityOverride::Default)
        } else if s == "public"@ {
            Some(PublicityOverride::Public)
        } else if s == "private"@ {
            Some(PublicityOverride::Private)
        } else if s == "selected_users"@ {
            Some(PublicityOverride::SelectedUsers)
        } else {
            None
        }
    }

    /// The database / display name of the value.
    pub fn as_str(self) -> (s: &'static str)
        ensures
            s@ == self.wire(),
    {
        match self {
            PublicityOverride::Default => "default",
            PublicityOverride::Public => "public",
            PublicityOverride::Private => "private",
            PublicityOverride::SelectedUsers => "selected_users",
        }
    }

    pub fn parse(s: &str) -> (r: Option<Self>)
        ensures
            r == Self::from_wire(s@),
    {
        if str_eq(s, "default") {
            Some(PublicityOverride::Default)
        } else if str_eq(s, "public") {
            Some(PublicityOverride::Public)
        } else if str_eq(s, "private") {
            Some(PublicityOverride::Private)
        } else if str_eq(s, "selected_users") {
            Some(PublicityOverride::SelectedUsers)
        } else {
            None
        }
    }
}

impl core::str::FromStr for PublicityOverride {
    type Err = ();

    fn from_str(s: &str) -> (r: Result<Self, Self::Err>)
        ensures
            r == (match Self::from_wire(s@) {
                Some(v) => Ok::<Self, ()>(v),
                None => Err(()),
            }),
    {
        match Self::parse(s) {
            Some(v) => Ok(v),
            None => Err(()),
        }
    }
}

/// Parsing a publicity override's name gives the value back.
pub proof fn law_publicity_override_roundtrip(v: PublicityOverride)
    ensures
        PublicityOverride::from_wire(v.wire()) == Some(v),
{
    reveal_strlit("default");
    reveal_strlit("public");
    reveal_strlit("private");
    reveal_strlit("selected_users");
    assert("default"@.len() == 7);
    assert("public"@.len() == 6);
    assert("private"@.len() == 7);
    assert("selected_users"@.len() == 14);
    assert("default"@[0] != "private"@[0]);
}

#[derive(Clone, Copy, Debug, PartialEq, Eq, Structural)]
pub enum UserRole {
    User,
    Admin,
}

impl UserRole {
    pub open spec fn wire(self) -> Seq<char> {
        match self {
            UserRole::User => "user"@,
            UserRole::Admin => "admin"@,
        }
    }

    pub open spec fn from_wire(s: Seq<char>) -> Option<UserRole> {
        if s == "user"@ {
            Some(UserRole::User)
        } else if s == "admin"@ {
            Some(UserRole::Admin)
        } else {
            None
        }
    }

    pub fn as_str(self) -> (s: &'static str)
        ensures
            s@ == self.wire(),
    {
        match self {
            UserRole::User => "user",
            UserRole::Admin => "admin",
        }
    }

    pub fn parse(s: &str) -> (r: Option<Self>)
        ensures
            r == Self::from_wire(s@),
    {
        if str_eq(s, "user") {
            Some(UserRole::User)
        } else if str_eq(s, "admin") {
            Some(UserRole::Admin)
        } else {
            None
        }
    }
}

impl core::str::FromStr for UserRole {
    type Err = ();

    fn from_str(s: &str) -> (r: Result<Self, Self::Err>)
        ensures
            r == (match Self::from_wire(s@) {
                Some(v) => Ok::<Self, ()>(v),
                None => Err(()),
            }),
    {
        match Self::parse(s) {
            Some(v) => Ok(v),
            None => Err(()),
        }
    }
}

/// Parsing a role's name gives the role back.
pub proof fn law_user_role_roundtrip(v: UserRole)
    ensures
        UserRole::from_wire(v.wire()) == Some(v),
{
    reveal_strlit("user");
    reveal_strlit("admin");
    assert("user"@.len() == 4);
    assert("admin"@.len() == 5);
}

/// A user's default visibility for new objects.
#[derive(Clone, Copy, Debug, PartialEq, Eq, Structural)]
pub enum PublicityDefault {
    Public,
    Private,
}

impl PublicityDefault {
    pub open spec fn wire(self) -> Seq<char> {
        match self {
            PublicityDefault::Public => "public"@,
            PublicityDefault::Private => "private"@,
        }
    }

    pub open spec fn from_wire(s: Seq<char>) -> Option<PublicityDefault> {
        if s == "public"@ {
            Some(PublicityDefault::Public)
        } else if s == "private"@ {
            Some(PublicityDefault::Private)
        } else {
            None
        }
    }

    pub fn as_str(self) -> (s: &'static str)
        ensures
            s@ == self.wire(),
    {
        match self {
            PublicityDefault::Public => "public",
            PublicityDefault::Private => "private",
        }
    }

    pub fn parse(s: &str) -> (r: Option<Self>)
        ensures
            r == Self::from_wire(s@),
    {
        if str_eq(s, "public") {
            Some(PublicityDefault::Public)
        } else if str_eq(s, "private") {
            Some(PublicityDefault::Private)
        } else {
            None
        }
    }
}

impl core::str::FromStr for PublicityDefault {
    type Err = ();

    fn from_str(s: &str) -> (r: Result<Self, Self::Err>)
        ensures
            r == (match Self::from_wire(s@) {
                Some(v) => Ok::<Self, ()>(v),
                None => Err(()),
            }),
    {
        match Self::parse(s) {
            Some(v) => Ok(v),
            None => Err(()),
        }
    }
}

/// Parsing a default publicity's name gives the value back.
pub proof fn law_publicity_default_roundtrip(v: PublicityDefault)
    ensures
        PublicityDefault::from_wire(v.wire()) == Some(v),
{
    reveal_strlit("public");
    reveal_strlit("private");
    assert("public"@.len() == 6);
    assert("private"@.len() == 7);
}

/// The public part of the server configuration.
#[derive(Clone, Debug)]
pub struct PublicConfig {
    pub enable_registration: bool,
}

/// The result of aborting an upload: the id of the object it was for.
#[derive(Clone, Copy, Debug)]
pub struct AbortedObjectUpload {
    object_id: i64,
}

impl AbortedObjectUpload {
    pub fn new(object_id: i64) -> (r: Self)
        ensures
            r.spec_object_id() == object_id,
    {
        AbortedObjectUpload { object_id }
    }

    pub closed spec fn spec_object_id(self) -> i64 {
        self.object_id
    }

    pub fn object_id(&self) -> (id: i64)
        ensures
            id == self.spec_object_id(),
    {
        self.object_id
    }
}

/// One header a browser must send with a presigned upload request.
#[derive(Clone, Debug)]
pub struct PresignedRequestHeader(pub PresignedHeader);

impl PresignedRequestHeader {
    pub fn name(&self) -> (n: &str)
        ensures
            n@ == self.0.name@,
    {
        self.0.name.as_str()
    }

    pub fn value(&self) -> (v: &str)
        ensures
            v@ == self.0.value@,
    {
        self.0.value.as_str()
    }
}

/// A part the client reports as uploaded: its number and the ETag storage
/// returned for it.
pub struct CompletedObjectUploadPartInput {
    pub part_number: i32,
    pub e_tag: String,
}

impl CompletedObjectUploadPartInput {
    /// The same part, in the form the storage layer takes.
    pub fn into_completed_part(self) -> (part: CompletedUploadPart)
        ensures
            part.part_number == self.part_number,
            part.e_tag == self.e_tag,
    {
        CompletedUploadPart { part_number: self.part_number, e_tag: self.e_tag }
    }
}

} // verus!
