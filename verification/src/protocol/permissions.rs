//! Permissions to apply to paths on a remote machine, and the options for setting them.
use vstd::prelude::*;

use crate::protocol::common::metadata::{
    lemma_unix_bits_roundtrip, lemma_unix_permission_bits, lemma_unix_value_roundtrip,
    unix_metadata_of, unix_mode_bits,
    UnixMetadata,
};

verus! {

/// Options for setting permissions.
#[derive(Copy, Clone, Debug, Default, PartialEq, Eq, Structural)]
pub struct SetPermissionsOptions {
    /// Whether or not to exclude symlinks from traversal entirely, meaning that permissions will
    /// not be set on symlinks (usually resolving the symlink and setting the permission of the
    /// referenced file or directory) that are explicitly provided or show up during recursion.
    pub exclude_symlinks: bool,
    /// Whether or not to traverse symlinks when recursively setting permissions. Note that this
    /// does NOT influence setting permissions when encountering a symlink as most platforms will
    /// resolve the symlink before setting permissions.
    pub follow_symlinks: bool,
    /// Whether or not to set the permissions of the file hierarchies rooted in the paths, instead
    /// of just the paths themselves.
    pub recursive: bool,
}

/// Represents permissions to apply to some path on a remote machine
///
/// When used to set permissions on a file, directory, or symlink,
/// only fields that are set (not `None`) will be applied.
///
/// On `Unix` platforms, this translates directly into the mode that
/// you would find with `chmod`. On all other platforms, this uses the
/// write flags to determine whether or not to set the readonly status.
#[derive(Copy, Clone, Debug, PartialEq, Eq, Structural)]
pub struct Permissions {
    /// Represents whether or not owner can read from the file
    pub owner_read: Option<bool>,
    /// Represents whether or not owner can write to the file
    pub owner_write: Option<bool>,
    /// Represents whether or not owner can execute the file
    pub owner_exec: Option<bool>,
    /// Represents whether or not associated group can read from the file
    pub group_read: Option<bool>,
    /// Represents whether or not associated group can write to the file
    pub group_write: Option<bool>,
    /// Represents whether or not associated group can execute the file
    pub group_exec: Option<bool>,
    /// Represents whether or not other can read from the file
    pub other_read: Option<bool>,
    /// Represents whether or not other can write to the file
    pub other_write: Option<bool>,
    /// Represents whether or not other can execute the file
    pub other_exec: Option<bool>,
}

/// Whether a setting is present and true.
pub open spec fn is_true(o: Option<bool>) -> bool {
    o == Some(true)
}

/// A setting of `other` where it has one, else the one of `base`.
pub open spec fn overlay(base: Option<bool>, other: Option<bool>) -> Option<bool> {
    match other {
        Some(v) => Some(v),
        None => base,
    }
}

/// The unix permission flags that a permission set turns on: a missing setting is off.
pub open spec fn flags_of(p: Permissions) -> UnixMetadata {
    UnixMetadata {
        owner_read: is_true(p.owner_read),
        owner_write: is_true(p.owner_write),
        owner_exec: is_true(p.owner_exec),
        group_read: is_true(p.group_read),
        group_write: is_true(p.group_write),
        group_exec: is_true(p.group_exec),
        other_read: is_true(p.other_read),
        other_write: is_true(p.other_write),
        other_exec: is_true(p.other_exec),
    }
}

/// The permission set with every setting given by the unix flags.
pub open spec fn permissions_of(m: UnixMetadata) -> Permissions {
    Permissions {
        owner_read: Some(m.owner_read),
        owner_write: Some(m.owner_write),
        owner_exec: Some(m.owner_exec),
        group_read: Some(m.group_read),
        group_write: Some(m.group_write),
        group_exec: Some(m.group_exec),
        other_read: Some(m.other_read),
        other_write: Some(m.other_write),
        other_exec: Some(m.other_exec),
    }
}

/// `base` with each setting that `other` has replaced by it.
pub open spec fn overlay_all(base: Permissions, other: Permissions) -> Permissions {
    Permissions {
        owner_read: overlay(base.owner_read, other.owner_read),
        owner_write: overlay(base.owner_write, other.owner_write),
        owner_exec: overlay(base.owner_exec, other.owner_exec),
        group_read: overlay(base.group_read, other.group_read),
        group_write: overlay(base.group_write, other.group_write),
        group_exec: overlay(base.group_exec, other.group_exec),
        other_read: overlay(base.other_read, other.other_read),
        other_write: overlay(base.other_write, other.other_write),
        other_exec: overlay(base.other_exec, other.other_exec),
    }
}

/// Whether every setting of the permission set is present.
pub open spec fn complete(p: Permissions) -> bool {
    &&& p.owner_read is Some
    &&& p.owner_write is Some
    &&& p.owner_exec is Some
    &&& p.group_read is Some
    &&& p.group_write is Some
    &&& p.group_exec is Some
    &&& p.other_read is Some
    &&& p.other_write is Some
    &&& p.other_exec is Some
}

/// The writable status: true when any write setting allows writing, false when the write
/// settings that are set all forbid it, and absent when none is set.
pub open spec fn writable_status(p: Permissions) -> Option<bool> {
    if p.owner_write == Some(true) || p.group_write == Some(true) || p.other_write == Some(
        true,
    ) {
        Some(true)
    } else if p.owner_write is Some || p.group_write is Some || p.other_write is Some {
        Some(false)
    } else {
        None
    }
}

fn apply_one(base: &mut Option<bool>, other: Option<bool>)
    ensures
        *final(base) == overlay(*old(base), other),
{
    if let Some(value) = other {
        *base = Some(value);
    }
}

impl Permissions {
    /// Creates a set of [`Permissions`] that indicate readonly status.
    pub fn readonly() -> (r: Self)
        ensures
            r == (Permissions {
                owner_read: Some(true),
                owner_write: Some(false),
                owner_exec: None,
                group_read: Some(true),
                group_write: Some(false),
                group_exec: None,
                other_read: Some(true),
                other_write: Some(false),
                other_exec: None,
            }),
    {
        Self {
            owner_write: Some(false),
            group_write: Some(false),
            other_write: Some(false),
            owner_read: Some(true),
            group_read: Some(true),
            other_read: Some(true),
            owner_exec: None,
            group_exec: None,
            other_exec: None,
        }
    }

    /// Creates a set of [`Permissions`] that indicate globally writable status.
    pub fn writable() -> (r: Self)
        ensures
            r == (Permissions {
                owner_read: Some(true),
                owner_write: Some(true),
                owner_exec: None,
                group_read: Some(true),
                group_write: Some(true),
                group_exec: None,
                other_read: Some(true),
                other_write: Some(true),
                other_exec: None,
            }),
    {
        Self {
            owner_write: Some(true),
            group_write: Some(true),
            other_write: Some(true),
            owner_read: Some(true),
            group_read: Some(true),
            other_read: Some(true),
            owner_exec: None,
            group_exec: None,
            other_exec: None,
        }
    }

    /// Returns true if the permission set has a value specified for each permission (no `None`
    /// settings).
    pub fn is_complete(&self) -> (r: bool)
        ensures
            r == complete(*self),
    {
        self.owner_read.is_some() && self.owner_write.is_some() && self.owner_exec.is_some()
            && self.group_read.is_some() && self.group_write.is_some() && self.group_exec.is_some()
            && self.other_read.is_some() && self.other_write.is_some() && self.other_exec.is_some()
    }

    /// Returns `true` if permissions represent readonly, `false` if permissions represent
    /// writable, and `None` if no permissions have been set to indicate either status.
    pub fn is_readonly(&self) -> (r: Option<bool>)
        ensures
            r == match writable_status(*self) {
                Some(w) => Some(!w),
                None => None,
            },
    {
        match self.is_writable() {
            Some(x) => Some(!x),
            None => None,
        }
    }

    /// Returns `true` if permissions represent ability to write, `false` if permissions represent
    /// inability to write, and `None` if no permissions have been set to indicate either status.
    pub fn is_writable(&self) -> (r: Option<bool>)
        ensures
            r == writable_status(*self),
    {
        match (self.owner_write, self.group_write, self.other_write) {
            (Some(true), _, _) | (_, Some(true), _) | (_, _, Some(true)) => Some(true),
            (None, None, None) => None,
            _ => Some(false),
        }
    }

    /// Applies `other` settings to `self`, overwriting any of the permissions in `self` with `other`.
    pub fn apply_from(&mut self, other: &Self)
        ensures
            *final(self) == overlay_all(*old(self), *other),
    {
        apply_one(&mut self.owner_read, other.owner_read);
        apply_one(&mut self.owner_write, other.owner_write);
        apply_one(&mut self.owner_exec, other.owner_exec);
        apply_one(&mut self.group_read, other.group_read);
        apply_one(&mut self.group_write, other.group_write);
        apply_one(&mut self.group_exec, other.group_exec);
        apply_one(&mut self.other_read, other.other_read);
        apply_one(&mut self.other_write, other.other_write);
        apply_one(&mut self.other_exec, other.other_exec);
    }

    /// Applies `self` settings to `other`, overwriting any of the permissions in `other` with
    /// `self`.
    pub fn apply_to(&self, other: &mut Self)
        ensures
            *final(other) == overlay_all(*old(other), *self),
    {
        Self::apply_from(other, self)
    }

    /// Converts a Unix `mode` into the permission set.
    pub fn from_unix_mode(mode: u32) -> (r: Self)
        ensures
            r == permissions_of(unix_metadata_of(mode)),
    {
        let m = UnixMetadata::from(mode);
        Self {
            owner_read: Some(m.owner_read),
            owner_write: Some(m.owner_write),
            owner_exec: Some(m.owner_exec),
            group_read: Some(m.group_read),
            group_write: Some(m.group_write),
            group_exec: Some(m.group_exec),
            other_read: Some(m.other_read),
            other_write: Some(m.other_write),
            other_exec: Some(m.other_exec),
        }
    }

    /// Converts to a Unix `mode` from a permission set. For any missing setting, a 0 bit is used.
    pub fn to_unix_mode(&self) -> (r: u32)
        ensures
            r == unix_mode_bits(flags_of(*self)),
    {
        let m = UnixMetadata {
            owner_read: self.owner_read == Some(true),
            owner_write: self.owner_write == Some(true),
            owner_exec: self.owner_exec == Some(true),
            group_read: self.group_read == Some(true),
            group_write: self.group_write == Some(true),
            group_exec: self.group_exec == Some(true),
            other_read: self.other_read == Some(true),
            other_write: self.other_write == Some(true),
            other_exec: self.other_exec == Some(true),
        };
        u32::from(m)
    }
}

/// A mode turned into permissions and back keeps its permission bits and drops the others; the
/// permissions it turns into are complete.
pub proof fn lemma_mode_roundtrip(mode: u32)
    ensures
        unix_mode_bits(flags_of(permissions_of(unix_metadata_of(mode)))) == mode & 0o777,
        complete(permissions_of(unix_metadata_of(mode))),
{
    let m = unix_metadata_of(mode);
    assert(flags_of(permissions_of(m)) == m);
    lemma_unix_value_roundtrip(mode);
}

/// Complete permissions turned into a mode and back are the same permissions.
pub proof fn lemma_complete_roundtrip(p: Permissions)
    requires
        complete(p),
    ensures
        permissions_of(unix_metadata_of(unix_mode_bits(flags_of(p)))) == p,
{
    lemma_unix_bits_roundtrip(flags_of(p));
    assert(Some(is_true(p.owner_read)) == p.owner_read);
    assert(Some(is_true(p.owner_write)) == p.owner_write);
    assert(Some(is_true(p.owner_exec)) == p.owner_exec);
    assert(Some(is_true(p.group_read)) == p.group_read);
    assert(Some(is_true(p.group_write)) == p.group_write);
    assert(Some(is_true(p.group_exec)) == p.group_exec);
    assert(Some(is_true(p.other_read)) == p.other_read);
    assert(Some(is_true(p.other_write)) == p.other_write);
    assert(Some(is_true(p.other_exec)) == p.other_exec);
    assert(permissions_of(flags_of(p)) == p);
}

/// Applying a set of permissions twice is the same as applying it once, and applying a complete
/// set yields that set.
pub proof fn lemma_overlay_laws(base: Permissions, other: Permissions)
    ensures
        overlay_all(overlay_all(base, other), other) == overlay_all(base, other),
        complete(other) ==> overlay_all(base, other) == other,
{
}


/// Each permission reads its documented mode bit, read, write and execute being `4`, `2` and `1`
/// of the owner's, the group's and the others' octal digit: a mode sets every permission to
/// whether its bit is on, and a permission set turns on exactly the bit of each permission that
/// is present and true.
pub proof fn lemma_mode_permission_bits(mode: u32, p: Permissions)
    ensures
        permissions_of(unix_metadata_of(mode)).owner_read == Some(mode & 0o400 != 0),
        permissions_of(unix_metadata_of(mode)).owner_write == Some(mode & 0o200 != 0),
        permissions_of(unix_metadata_of(mode)).owner_exec == Some(mode & 0o100 != 0),
        permissions_of(unix_metadata_of(mode)).group_read == Some(mode & 0o40 != 0),
        permissions_of(unix_metadata_of(mode)).group_write == Some(mode & 0o20 != 0),
        permissions_of(unix_metadata_of(mode)).group_exec == Some(mode & 0o10 != 0),
        permissions_of(unix_metadata_of(mode)).other_read == Some(mode & 0o4 != 0),
        permissions_of(unix_metadata_of(mode)).other_write == Some(mode & 0o2 != 0),
        permissions_of(unix_metadata_of(mode)).other_exec == Some(mode & 0o1 != 0),
        (unix_mode_bits(flags_of(p)) & 0o400 != 0) == (p.owner_read == Some(true)),
        (unix_mode_bits(flags_of(p)) & 0o200 != 0) == (p.owner_write == Some(true)),
        (unix_mode_bits(flags_of(p)) & 0o100 != 0) == (p.owner_exec == Some(true)),
        (unix_mode_bits(flags_of(p)) & 0o40 != 0) == (p.group_read == Some(true)),
        (unix_mode_bits(flags_of(p)) & 0o20 != 0) == (p.group_write == Some(true)),
        (unix_mode_bits(flags_of(p)) & 0o10 != 0) == (p.group_exec == Some(true)),
        (unix_mode_bits(flags_of(p)) & 0o4 != 0) == (p.other_read == Some(true)),
        (unix_mode_bits(flags_of(p)) & 0o2 != 0) == (p.other_write == Some(true)),
        (unix_mode_bits(flags_of(p)) & 0o1 != 0) == (p.other_exec == Some(true)),
{
    lemma_unix_permission_bits(mode, flags_of(p));
}

} // verus!
