use supervisor::extract::{dhcpd_subnet, hostapd_interface, split_words};

#[test]
fn finds_the_interface() {
    assert_eq!(hostapd_interface(b"interface=wlan0"), Some(b"wlan0".to_vec()));
    let text = b"ssid=test\ndriver=nl80211\ninterface=wlan1 \nchannel=6\ninterface=wlan2\n";
    assert_eq!(hostapd_interface(text), Some(b"wlan1".to_vec()));
}

#[test]
fn interface_must_open_a_line() {
    assert_eq!(hostapd_interface(b"bridge_interface=br0\n#interface=wlan9\n"), None);
    assert_eq!(hostapd_interface(b""), None);
    assert_eq!(hostapd_interface(b"x\ninterface=\n"), Some(Vec::new()));
}

#[test]
fn finds_the_subnet() {
    let text = b"subnet 10.0.0.0 netmask 255.255.255.0 { option routers 10.0.0.1; }";
    assert_eq!(dhcpd_subnet(text), Some((b"255.255.255.0".to_vec(), b"10.0.0.1".to_vec())));
}

#[test]
fn subnet_over_several_lines() {
    let text = b"default-lease-time 600;\nsubnet 192.168.4.0 netmask 255.255.255.0 {\n  range 192.168.4.10 192.168.4.50;\n  option routers 192.168.4.1;\n}\nsubnet 10.1.0.0 netmask 255.255.0.0 {\n  option routers 10.1.0.1;\n}\n";
    assert_eq!(dhcpd_subnet(text), Some((b"255.255.255.0".to_vec(), b"192.168.4.1".to_vec())));
}

#[test]
fn subnet_without_routers_gives_nothing() {
    assert_eq!(dhcpd_subnet(b"subnet 10.0.0.0 netmask 255.0.0.0 { range 10.0.0.2 10.0.0.9; }\noption routers 10.0.0.1;"), None);
    assert_eq!(dhcpd_subnet(b"option routers 10.0.0.1;"), None);
    assert_eq!(dhcpd_subnet(b""), None);
}

#[test]
fn words_split_on_whitespace() {
    assert_eq!(
        split_words(b"  a bc\t\nd  "),
        vec![b"a".to_vec(), b"bc".to_vec(), b"d".to_vec()]
    );
    assert_eq!(split_words(b" \n "), Vec::<Vec<u8>>::new());
}
