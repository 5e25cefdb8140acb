use hwinfo::optical::{collect_optical, OpticalDevice, OpticalInfo};

fn drive(name: &str, model: &str) -> OpticalDevice {
    OpticalDevice {
        name: name.to_string(),
        model: model.to_string(),
        vendor: "Unknown".to_string(),
    }
}

#[test]
fn name_and_model_are_paired() {
    let table = "CD-ROM information, Id: cdrom.c 3.20 2003/12/17\n\ndrive name:\t\tsr0\ndrive speed:\t\t24\ndrive model:\t\tDVD-RW DS8A9SH\n";
    assert_eq!(collect_optical(Some(table), false).devices, vec![drive("sr0", "DVD-RW DS8A9SH")]);
    assert_eq!(collect_optical(Some(table), true).devices, vec![drive("sr0", "DVD-RW DS8A9SH")]);
}

#[test]
fn several_drives() {
    let table = "drive name: sr0\ndrive model: A\ndrive model: ignored\ndrive name: sr1\ndrive name: sr2\ndrive model: B\n";
    assert_eq!(collect_optical(Some(table), true).devices, vec![drive("sr0", "A"), drive("sr2", "B")]);
}

#[test]
fn table_without_a_pair_falls_back_to_the_device_node() {
    let table = "CD-ROM information, Id: cdrom.c 3.20 2003/12/17\n\ndrive name:\t\tsr0\ndrive speed:\t\t24\n";
    assert_eq!(collect_optical(Some(table), true).devices, vec![drive("sr0", "CD/DVD Drive")]);
    assert!(collect_optical(Some(table), false).devices.is_empty());
}

#[test]
fn model_before_any_name_is_ignored() {
    assert!(collect_optical(Some("drive model: A\ndrive name:\n"), false).devices.is_empty());
}

#[test]
fn no_table() {
    assert_eq!(collect_optical(None, false), OpticalInfo::default());
    assert_eq!(collect_optical(None, true).devices, vec![drive("sr0", "CD/DVD Drive")]);
}

#[test]
fn value_ends_at_the_second_colon() {
    assert_eq!(
        collect_optical(Some("drive name: a:b\ndrive model: m : n\n"), false).devices,
        vec![drive("a", "m")]
    );
}
