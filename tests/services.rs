use supervisor::child::ExpectedExit;
use supervisor::services::{dhcpd_args, hostapd_args, Ifconfig};

fn words(ws: &[&str]) -> Vec<Vec<u8>> {
    ws.iter().map(|w| w.as_bytes().to_vec()).collect()
}

#[test]
fn ifconfig_command_lines() {
    let i = Ifconfig::new(b"wlan0".to_vec());
    assert_eq!(i.interface(), b"wlan0".to_vec());
    assert_eq!(
        i.up_args(b"10.0.0.1", b"255.255.255.0"),
        words(&["wlan0", "up", "10.0.0.1", "netmask", "255.255.255.0"])
    );
    assert_eq!(i.release_args(), words(&["wlan0", "0.0.0.0"]));
    assert_eq!(i.down_args(), words(&["wlan0", "down"]));
}

#[test]
fn daemon_command_lines() {
    assert_eq!(
        dhcpd_args(b"wlan0"),
        words(&["-d", "-lf", "/var/dhcpd/dhcpd.leases", "-cf", "/etc/dhcpd.conf", "wlan0"])
    );
    assert_eq!(hostapd_args(), words(&["/etc/hostapd.conf"]));
}

#[test]
fn expected_status_maps_to_policy() {
    assert_eq!(ExpectedExit::from_expected_status(None), ExpectedExit::NeverExits);
    assert_eq!(ExpectedExit::from_expected_status(Some(0)), ExpectedExit::ExitsWithCode(0));
    assert_eq!(ExpectedExit::from_expected_status(Some(-2)), ExpectedExit::ExitsWithCode(-2));
}
