use stratisd::util::{
    command_outcome, create_fs_command, find_wwn, set_uuid_command, xfs_growfs_command, UdevDisk,
    Wwn,
};

#[test]
fn mkfs_command_line() {
    let c = create_fs_command("/dev/sdb", 0xa1a2a3a4b1b2c1c2d1d2d3d4d5d6d7d8);
    assert_eq!(c.program, "mkfs.xfs");
    assert_eq!(c.args, vec!["-f", "-q", "/dev/sdb", "-m", "uuid=a1a2a3a4-b1b2-c1c2-d1d2-d3d4d5d6d7d8"]);
    assert_eq!(c.error_msg, "Failed to create new filesystem at \"/dev/sdb\"");
}

#[test]
fn growfs_and_set_uuid_command_lines() {
    let g = xfs_growfs_command("/mnt/fs");
    assert_eq!(g.program, "xfs_growfs");
    assert_eq!(g.args, vec!["/mnt/fs", "-d"]);
    assert_eq!(g.error_msg, "Failed to expand filesystem \"/mnt/fs\"");
    let s = set_uuid_command("/dev/sdc", 1);
    assert_eq!(s.program, "xfs_admin");
    assert_eq!(s.args, vec!["-U", "00000000-0000-0000-0000-000000000001", "/dev/sdc"]);
    assert_eq!(s.error_msg, "Failed to set UUID for filesystem \"/dev/sdc\"");
}

#[test]
fn command_outcomes() {
    assert!(command_outcome(true, &vec![], &vec![], "boom").is_ok());
    let e = command_outcome(false, &b"out".to_vec(), &vec![b'e', 0xff], "boom").unwrap_err();
    assert_eq!(e.message, "boom stdout: out stderr: e\u{fffd}");
}

fn disk(node: Option<&str>, wwn: Option<Wwn>) -> UdevDisk {
    UdevDisk { devnode: node.map(|s| s.to_string()), wwn }
}

#[test]
fn wwn_lookup() {
    let disks = vec![
        disk(None, Some(Wwn::Text("skip".to_string()))),
        disk(Some("/dev/sda"), Some(Wwn::Text("0x5000".to_string()))),
        disk(Some("/dev/sdb"), None),
        disk(Some("/dev/sdc"), Some(Wwn::Undecodable("\"\\xFF\"".to_string()))),
        disk(Some("/dev/sda"), Some(Wwn::Text("second".to_string()))),
    ];
    assert_eq!(find_wwn(&disks, "/dev/sda").unwrap(), Some("0x5000".to_string()));
    assert_eq!(find_wwn(&disks, "/dev//sda").unwrap(), Some("0x5000".to_string()));
    assert_eq!(find_wwn(&disks, "/dev/sdb").unwrap(), None);
    assert_eq!(find_wwn(&disks, "/dev/sdz").unwrap(), None);
    let e = find_wwn(&disks, "/dev/sdc").unwrap_err();
    assert_eq!(e.message, "Unable to convert \"\\xFF\" to str");
}
