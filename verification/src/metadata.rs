//! Metadata preservation configuration (rsync-compatible flags) and the
//! decision of which metadata a copy applies to its destination.

use vstd::prelude::*;

verus! {

/// Metadata preservation flags, as given on the command line.
#[derive(Debug, Clone, Copy)]
pub struct MetadataConfig {
    /// Archive mode; same as -rlptgoD.
    pub archive: bool,
    /// Recurse into directories.
    pub recursive: bool,
    /// Copy symlinks as symlinks.
    pub links: bool,
    /// Preserve permissions.
    pub perms: bool,
    /// Preserve modification times.
    pub times: bool,
    /// Preserve group.
    pub group: bool,
    /// Preserve owner.
    pub owner: bool,
    /// Preserve device files and special files.
    pub devices: bool,
    /// Sync each file to disk after writing.
    pub fsync: bool,
    /// Preserve extended attributes.
    pub xattrs: bool,
    /// Preserve ACLs (implies permissions).
    pub acls: bool,
    /// Preserve hard links.
    pub hard_links: bool,
    /// Preserve access times.
    pub atimes: bool,
    /// Preserve creation times.
    pub crtimes: bool,
    /// Deprecated spelling of `xattrs`.
    pub preserve_xattr: bool,
    /// Deprecated spelling of `acls`.
    pub preserve_acl: bool,
}

impl MetadataConfig {
    /// Permissions are preserved under `-p`, `-a` or `-A`.
    pub open spec fn spec_preserve_permissions(&self) -> bool {
        self.perms || self.archive || self.acls
    }

    /// Ownership is preserved under `-o`, `-g` or `-a`.
    pub open spec fn spec_preserve_ownership(&self) -> bool {
        self.owner || self.group || self.archive
    }

    /// Timestamps are preserved under `-t` or `-a`.
    pub open spec fn spec_preserve_timestamps(&self) -> bool {
        self.times || self.archive
    }

    /// Extended attributes are preserved under `-X` or the deprecated flag.
    pub open spec fn spec_preserve_xattrs(&self) -> bool {
        self.xattrs || self.preserve_xattr
    }

    /// Symlinks are copied as symlinks under `-l` or `-a`.
    pub open spec fn spec_preserve_links(&self) -> bool {
        self.links || self.archive
    }

    /// Directories are entered under `-r` or `-a`.
    pub open spec fn spec_recurse(&self) -> bool {
        self.recursive || self.archive
    }

    /// Check if permissions should be preserved.
    pub fn should_preserve_permissions(&self) -> (r: bool)
        ensures
            r == self.spec_preserve_permissions(),
    {
        self.perms || self.archive || self.acls
    }

    /// Check if ownership (user and/or group) should be preserved.
    pub fn should_preserve_ownership(&self) -> (r: bool)
        ensures
            r == self.spec_preserve_ownership(),
    {
        self.owner || self.group || self.archive
    }

    /// Check if timestamps should be preserved.
    pub fn should_preserve_timestamps(&self) -> (r: bool)
        ensures
            r == self.spec_preserve_timestamps(),
    {
        self.times || self.archive
    }

    /// Check if extended attributes should be preserved.
    pub fn should_preserve_xattrs(&self) -> (r: bool)
        ensures
            r == self.spec_preserve_xattrs(),
    {
        self.xattrs || self.preserve_xattr
    }

    /// Check if symlinks should be copied as symlinks.
    pub fn should_preserve_links(&self) -> (r: bool)
        ensures
            r == self.spec_preserve_links(),
    {
        self.links || self.archive
    }

    /// Check if hard links should be preserved.
    pub fn should_preserve_hard_links(&self) -> (r: bool)
        ensures
            r == self.hard_links,
    {
        self.hard_links
    }

    /// Check if recursive copying should be performed.
    pub fn should_recurse(&self) -> (r: bool)
        ensures
            r == self.spec_recurse(),
    {
        self.recursive || self.archive
    }
}

/// What a file copy applies to its destination, in the order the copy applies it:
/// permissions, then ownership, then extended attributes, then timestamps.
#[derive(Debug, Clone, Copy, PartialEq, Eq)]
pub struct MetadataPlan {
    /// Copy the permission bits.
    pub permissions: bool,
    /// Copy the owner and group.
    pub ownership: bool,
    /// Copy every extended attribute.
    pub xattrs: bool,
    /// Copy the access and modification times.
    pub timestamps: bool,
}

/// The plan that `config` calls for.
pub open spec fn spec_metadata_plan(config: MetadataConfig) -> MetadataPlan {
    MetadataPlan {
        permissions: config.spec_preserve_permissions(),
        ownership: config.spec_preserve_ownership(),
        xattrs: config.spec_preserve_xattrs(),
        timestamps: config.spec_preserve_timestamps(),
    }
}

/// Decide which metadata a file or directory copy preserves.
pub fn plan_metadata(config: &MetadataConfig) -> (plan: MetadataPlan)
    ensures
        plan == spec_metadata_plan(*config),
{
    MetadataPlan {
        permissions: config.should_preserve_permissions(),
        ownership: config.should_preserve_ownership(),
        xattrs: config.should_preserve_xattrs(),
        timestamps: config.should_preserve_timestamps(),
    }
}

/// Archive mode (`-a`) turns on permissions, ownership, timestamps, symlinks
/// and recursion, whatever the other flags say.
pub proof fn lemma_archive_implies_rlptgo(config: MetadataConfig)
    requires
        config.archive,
    ensures
        config.spec_preserve_permissions(),
        config.spec_preserve_ownership(),
        config.spec_preserve_timestamps(),
        config.spec_preserve_links(),
        config.spec_recurse(),
{
}

/// Each flag turns on its own kind of metadata: `-p` permissions, `-o` and
/// `-g` ownership, `-t` timestamps, `-X` (or its deprecated spelling)
/// extended attributes, `-l` symlinks and `-r` recursion.
pub proof fn lemma_each_flag_preserves_its_metadata(config: MetadataConfig)
    ensures
        config.perms ==> spec_metadata_plan(config).permissions,
        config.owner ==> spec_metadata_plan(config).ownership,
        config.group ==> spec_metadata_plan(config).ownership,
        config.times ==> spec_metadata_plan(config).timestamps,
        config.xattrs ==> spec_metadata_plan(config).xattrs,
        config.preserve_xattr ==> spec_metadata_plan(config).xattrs,
        config.links ==> config.spec_preserve_links(),
        config.recursive ==> config.spec_recurse(),
{
}

/// A kind of metadata is preserved only when a flag that selects it is
/// given: permissions by `-p`, `-a` or `-A`; ownership by `-o`, `-g` or
/// `-a`; timestamps by `-t` or `-a`; extended attributes by `-X` or its
/// deprecated spelling.
pub proof fn lemma_metadata_needs_a_flag(config: MetadataConfig)
    ensures
        spec_metadata_plan(config).permissions ==> (config.perms || config.archive || config.acls),
        spec_metadata_plan(config).ownership ==> (config.owner || config.group || config.archive),
        spec_metadata_plan(config).timestamps ==> (config.times || config.archive),
        spec_metadata_plan(config).xattrs ==> (config.xattrs || config.preserve_xattr),
        config.spec_preserve_links() ==> (config.links || config.archive),
        config.spec_recurse() ==> (config.recursive || config.archive),
{
}

/// ACLs imply permissions (`-A` implies `-p`).
pub proof fn lemma_acls_imply_permissions(config: MetadataConfig)
    requires
        config.acls,
    ensures
        config.spec_preserve_permissions(),
{
}

/// With no flag set, nothing is preserved (rsync's default).
pub proof fn lemma_no_flags_preserve_nothing(config: MetadataConfig)
    requires
        !config.archive,
        !config.recursive,
        !config.links,
        !config.perms,
        !config.times,
        !config.group,
        !config.owner,
        !config.xattrs,
        !config.acls,
        !config.hard_links,
        !config.preserve_xattr,
    ensures
        spec_metadata_plan(config) == (MetadataPlan {
            permissions: false,
            ownership: false,
            xattrs: false,
            timestamps: false,
        }),
        !config.spec_preserve_links(),
        !config.spec_recurse(),
{
}

} // verus!
