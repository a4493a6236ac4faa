//! Who may execute a file.
//!
//! Execution happens in user space here, so nothing but this test stands
//! between a caller and a file whose execute bit is not set for them.

use vstd::prelude::*;

verus! {

/// Set-user-ID bit of a file mode.
pub const S_ISUID: u16 = 0o4000;

/// Set-group-ID bit of a file mode.
pub const S_ISGID: u16 = 0o2000;

/// Which of the three permission triples of a file applies to a caller.
#[derive(Clone, Copy, Debug, PartialEq, Eq, Structural)]
pub enum AccessClass {
    Owner,
    Group,
    Other,
}

/// The caller's identity and the file's owner, group and mode, gathered for one
/// replacement attempt.
#[derive(Clone, Copy, Debug, PartialEq, Eq, Structural)]
pub struct CredentialContext {
    pub uid: usize,
    pub gid: usize,
    pub st_uid: u32,
    pub st_gid: u32,
    pub st_mode: u16,
}

impl CredentialContext {
    /// The class is chosen by identity alone: the owner is judged as owner even
    /// where group or others are granted more.
    pub open spec fn spec_access_class(self) -> AccessClass {
        if self.uid == self.st_uid {
            AccessClass::Owner
        } else if self.gid == self.st_gid {
            AccessClass::Group
        } else {
            AccessClass::Other
        }
    }

    /// The execute bit of the caller's class is set.
    pub open spec fn spec_may_execute(self) -> bool {
        match self.spec_access_class() {
            AccessClass::Owner => self.st_mode & 0o100 != 0,
            AccessClass::Group => self.st_mode & 0o010 != 0,
            AccessClass::Other => self.st_mode & 0o001 != 0,
        }
    }

    /// The mode asks for the owner's or the group's credentials.
    pub open spec fn spec_wants_setugid(self) -> bool {
        self.st_mode & 0o4000 != 0 || self.st_mode & 0o2000 != 0
    }

    /// The permission triple that applies to the caller.
    pub fn access_class(&self) -> (class: AccessClass)
        ensures
            class == self.spec_access_class(),
    {
        if self.uid == self.st_uid as usize {
            AccessClass::Owner
        } else if self.gid == self.st_gid as usize {
            AccessClass::Group
        } else {
            AccessClass::Other
        }
    }

    /// Whether the caller may execute the file.
    pub fn may_execute(&self) -> (allowed: bool)
        ensures
            allowed == self.spec_may_execute(),
    {
        let st_mode: u16 = self.st_mode;
        let mode: u16 = match self.access_class() {
            AccessClass::Owner => (st_mode >> 6) & 0o7,
            AccessClass::Group => (st_mode >> 3) & 0o7,
            AccessClass::Other => st_mode & 0o7,
        };
        assert((((st_mode >> 6) & 0o7) & 0o1 == 0) <==> (st_mode & 0o100 == 0)) by (bit_vector);
        assert((((st_mode >> 3) & 0o7) & 0o1 == 0) <==> (st_mode & 0o010 == 0)) by (bit_vector);
        assert(((st_mode & 0o7) & 0o1 == 0) <==> (st_mode & 0o001 == 0)) by (bit_vector);
        mode & 0o1 != 0
    }

    /// Whether the file's mode carries the set-user-ID or the set-group-ID bit.
    pub fn wants_setugid(&self) -> (wanted: bool)
        ensures
            wanted == self.spec_wants_setugid(),
    {
        let st_mode: u16 = self.st_mode;
        assert((st_mode & (0o4000u16 | 0o2000u16) != 0) <==> (st_mode & 0o4000 != 0 || st_mode
            & 0o2000 != 0)) by (bit_vector);
        st_mode & (S_ISUID | S_ISGID) != 0
    }
}

/// A caller who is neither the owner nor in the file's group may execute it as
/// soon as others may, whatever the owner and the group are denied.
pub proof fn lemma_stranger_runs_on_other_bit(c: CredentialContext)
    requires
        c.uid != c.st_uid,
        c.gid != c.st_gid,
        c.st_mode & 0o001 != 0,
    ensures
        c.spec_access_class() == AccessClass::Other,
        c.spec_may_execute(),
{
}

/// The owner is judged by the owner's bit alone: without it, no bit granted to
/// the group or to others lets the owner execute the file.
pub proof fn lemma_owner_needs_owner_bit(c: CredentialContext)
    requires
        c.uid == c.st_uid,
        c.st_mode & 0o100 == 0,
    ensures
        c.spec_access_class() == AccessClass::Owner,
        !c.spec_may_execute(),
{
}

} // verus!
