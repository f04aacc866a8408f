use arsync::metadata::{plan_metadata, MetadataConfig, MetadataPlan};

fn config_with(archive: bool) -> MetadataConfig {
    MetadataConfig {
        archive,
        recursive: false,
        links: false,
        perms: false,
        times: false,
        group: false,
        owner: false,
        devices: false,
        fsync: false,
        xattrs: false,
        acls: false,
        hard_links: false,
        atimes: false,
        crtimes: false,
        preserve_xattr: false,
        preserve_acl: false,
    }
}

#[test]
fn test_metadata_config_defaults() {
    let config = MetadataConfig {
        archive: false,
        recursive: false,
        links: false,
        perms: false,
        times: false,
        group: false,
        owner: false,
        devices: false,
        fsync: false,
        xattrs: false,
        acls: false,
        hard_links: false,
        atimes: false,
        crtimes: false,
        preserve_xattr: false,
        preserve_acl: false,
    };

    // Nothing should be preserved
    assert!(!config.should_preserve_permissions());
    assert!(!config.should_preserve_ownership());
    assert!(!config.should_preserve_timestamps());
    assert!(!config.should_preserve_xattrs());
}

#[test]
fn test_metadata_config_archive() {
    let config = MetadataConfig {
        archive: true,
        recursive: false,
        links: false,
        perms: false,
        times: false,
        group: false,
        owner: false,
        devices: false,
        fsync: false,
        xattrs: false,
        acls: false,
        hard_links: false,
        atimes: false,
        crtimes: false,
        preserve_xattr: false,
        preserve_acl: false,
    };

    // Archive enables most things
    assert!(config.should_preserve_permissions());
    assert!(config.should_preserve_ownership());
    assert!(config.should_preserve_timestamps());
    assert!(config.should_preserve_links());
}

#[test]
fn archive_also_recurses_but_not_xattrs_or_hardlinks() {
    let config = config_with(true);
    assert!(config.should_recurse());
    assert!(!config.should_preserve_xattrs());
    assert!(!config.should_preserve_hard_links());
}

#[test]
fn acls_imply_permissions_and_deprecated_xattr_flag_counts() {
    let mut config = config_with(false);
    config.acls = true;
    config.preserve_xattr = true;
    config.group = true;
    assert!(config.should_preserve_permissions());
    assert!(config.should_preserve_xattrs());
    assert!(config.should_preserve_ownership());
    assert!(!config.should_preserve_timestamps());
    config.hard_links = true;
    assert!(config.should_preserve_hard_links());
}

#[test]
fn metadata_plan_follows_flags() {
    let mut config = config_with(false);
    assert_eq!(
        plan_metadata(&config),
        MetadataPlan { permissions: false, ownership: false, xattrs: false, timestamps: false }
    );
    config.times = true;
    config.xattrs = true;
    assert_eq!(
        plan_metadata(&config),
        MetadataPlan { permissions: false, ownership: false, xattrs: true, timestamps: true }
    );
    let archive = config_with(true);
    assert_eq!(
        plan_metadata(&archive),
        MetadataPlan { permissions: true, ownership: true, xattrs: false, timestamps: true }
    );
}
