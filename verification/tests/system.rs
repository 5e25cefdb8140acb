use hwinfo::network::{collect_network, NetworkInfo, NetworkInterface};
use hwinfo::system::{
    collect_runtime, read_baseboard_info, read_bios_info, read_os_info,
    read_sysfs_file, read_uuid_info, BaseboardInfo, BiosFiles, BiosInfo, BoardFiles, OsFacts,
    OsInfo, RuntimeInfo, UuidInfo,
};

fn text(s: &str) -> Option<String> {
    Some(s.to_string())
}

fn facts(target_os: &str) -> OsFacts {
    OsFacts {
        hostname: text("box"),
        kernel: text("6.1.0"),
        name: text("Debian GNU/Linux"),
        os_version: text("12"),
        long_os_version: text("Linux 12 Debian GNU/Linux"),
        arch: text("x86_64"),
        uefi: true,
        target_os: target_os.to_string(),
    }
}

#[test]
fn kernel_file_is_trimmed() {
    assert_eq!(read_sysfs_file(Some("  Dell Inc.\n")), "Dell Inc.");
    assert_eq!(read_sysfs_file(Some("\u{a0}\u{3000}x y\t\r\n\u{2003}")), "x y");
    assert_eq!(read_sysfs_file(Some("\u{200b}x")), "\u{200b}x");
}

#[test]
fn missing_kernel_file_is_empty() {
    assert_eq!(read_sysfs_file(None), "");
    assert_eq!(read_sysfs_file(Some("")), "");
    assert_eq!(read_sysfs_file(Some(" \n ")), "");
}

#[test]
fn board_identity() {
    let files = BoardFiles {
        vendor: text("LENOVO\n"),
        name: text("20HES0VE00\n"),
        version: text(" SDK0J40697 WIN \n"),
        serial: None,
    };
    assert_eq!(
        read_baseboard_info(&files),
        BaseboardInfo {
            manufacturer: "LENOVO".to_string(),
            model: "20HES0VE00".to_string(),
            version: "SDK0J40697 WIN".to_string(),
            serial: String::new(),
        }
    );
}

#[test]
fn board_without_files_is_the_default() {
    let files = BoardFiles { vendor: None, name: None, version: None, serial: None };
    assert_eq!(read_baseboard_info(&files), BaseboardInfo::default());
}

#[test]
fn firmware_identity() {
    let files = BiosFiles { vendor: text("LENOVO\n"), version: text("N1QET88W\n"), date: None };
    assert_eq!(
        read_bios_info(&files),
        BiosInfo {
            vendor: "LENOVO".to_string(),
            version: "N1QET88W".to_string(),
            release_date: String::new(),
        }
    );
    let none = BiosFiles { vendor: None, version: None, date: None };
    assert_eq!(read_bios_info(&none), BiosInfo::default());
}

#[test]
fn addresses_that_are_empty_or_zero_are_skipped() {
    let addresses = vec![
        text("00:00:00:00:00:00\n"),
        text("a4:5e:60:d1:22:0b\n"),
        None,
        text("\n"),
        text(" 52:54:00:12:34:56 "),
        text("00:00:00:00:00:00:00"),
    ];
    assert_eq!(
        read_uuid_info(&addresses).macs,
        vec!["a4:5e:60:d1:22:0b", "52:54:00:12:34:56", "00:00:00:00:00:00:00"]
    );
    assert_eq!(read_uuid_info(&Vec::new()), UuidInfo::default());
}

#[test]
fn platform_names() {
    assert_eq!(read_os_info(&facts("linux")).platform, "linux");
    assert_eq!(read_os_info(&facts("windows")).platform, "win32");
    assert_eq!(read_os_info(&facts("macos")).platform, "darwin");
    assert_eq!(read_os_info(&facts("freebsd")).platform, "freebsd");
    assert_eq!(read_os_info(&facts("")).platform, "");
}

#[test]
fn operating_system_facts_are_carried_over() {
    assert_eq!(
        read_os_info(&facts("linux")),
        OsInfo {
            platform: "linux".to_string(),
            distro: "Linux 12 Debian GNU/Linux".to_string(),
            release: "12".to_string(),
            hostname: "box".to_string(),
            kernel: "6.1.0".to_string(),
            arch: "x86_64".to_string(),
            fqdn: "Debian GNU/Linux".to_string(),
            uefi: true,
        }
    );
}

#[test]
fn untold_facts_are_empty() {
    let facts = OsFacts {
        hostname: None,
        kernel: None,
        name: None,
        os_version: None,
        long_os_version: None,
        arch: None,
        uefi: false,
        target_os: String::new(),
    };
    assert_eq!(read_os_info(&facts), OsInfo::default());
}

#[test]
fn clock_readings() {
    assert_eq!(collect_runtime(120, Some(1700000000)), RuntimeInfo { uptime: 120, current: 1700000000 });
    assert_eq!(collect_runtime(5, None), RuntimeInfo { uptime: 5, current: 0 });
    assert_eq!(RuntimeInfo::default(), RuntimeInfo { uptime: 0, current: 0 });
}

#[test]
fn one_interface_for_each_name() {
    let names = vec!["lo".to_string(), "eth0".to_string(), "lo".to_string()];
    let info = collect_network(&names);
    let ifaces: Vec<&str> = info.interfaces.iter().map(|i| i.iface.as_str()).collect();
    assert_eq!(ifaces, vec!["lo", "eth0", "lo"]);
    for interface in &info.interfaces {
        assert_eq!(interface.ip4, "");
        assert_eq!(interface.ip6, "");
        assert_eq!(interface.mac, "");
    }
    assert_eq!(collect_network(&Vec::new()), NetworkInfo::default());
    assert_eq!(NetworkInterface::default().iface, "");
}
