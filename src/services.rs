//! Command lines of the appliance's network services.
use vstd::prelude::*;
use vstd::slice::slice_to_vec;
use crate::extract::{word_bytes_netmask, word_netmask, words_view};

verus! {

/// `up`
pub open spec fn word_up() -> Seq<u8> {
    seq![117u8, 112]
}

/// `down`
pub open spec fn word_down() -> Seq<u8> {
    seq![100u8, 111, 119, 110]
}

/// `0.0.0.0`: the address that removes an interface's association.
pub open spec fn no_address() -> Seq<u8> {
    seq![48u8, 46, 48, 46, 48, 46, 48]
}

fn bytes_up() -> (r: Vec<u8>)
    ensures
        r@ == word_up(),
{
    let r: Vec<u8> = vec![117u8, 112];
    assert(r@ =~= word_up());
    r
}

fn bytes_down() -> (r: Vec<u8>)
    ensures
        r@ == word_down(),
{
    let r: Vec<u8> = vec![100u8, 111, 119, 110];
    assert(r@ =~= word_down());
    r
}

fn bytes_no_address() -> (r: Vec<u8>)
    ensures
        r@ == no_address(),
{
    let r: Vec<u8> = vec![48u8, 46, 48, 46, 48, 46, 48];
    assert(r@ =~= no_address());
    r
}

/// A network interface that the interface configuration tool brings up and down.
#[derive(Debug)]
pub struct Ifconfig {
    interface: Vec<u8>,
}

impl Ifconfig {
    pub closed spec fn view(&self) -> Seq<u8> {
        self.interface@
    }

    /// The interface named `interface`.
    pub fn new(interface: Vec<u8>) -> (r: Ifconfig)
        ensures
            r@ == interface@,
    {
        Ifconfig { interface }
    }

    /// The interface's name.
    pub fn interface(&self) -> (r: Vec<u8>)
        ensures
            r@ == self@,
    {
        slice_to_vec(self.interface.as_slice())
    }

    /// Arguments that bring the interface up at `gateway` with `netmask`:
    /// `<interface> up <gateway> netmask <netmask>`.
    pub fn up_args(&self, gateway: &[u8], netmask: &[u8]) -> (r: Vec<Vec<u8>>)
        ensures
            words_view(r@) == seq![self@, word_up(), gateway@, word_netmask(), netmask@],
    {
        let mut r: Vec<Vec<u8>> = Vec::new();
        r.push(self.interface());
        r.push(bytes_up());
        r.push(slice_to_vec(gateway));
        r.push(word_bytes_netmask());
        r.push(slice_to_vec(netmask));
        assert(words_view(r@) =~= seq![self@, word_up(), gateway@, word_netmask(), netmask@]);
        r
    }

    /// Arguments that remove the interface's address: `<interface> 0.0.0.0`.
    pub fn release_args(&self) -> (r: Vec<Vec<u8>>)
        ensures
            words_view(r@) == seq![self@, no_address()],
    {
        let mut r: Vec<Vec<u8>> = Vec::new();
        r.push(self.interface());
        r.push(bytes_no_address());
        assert(words_view(r@) =~= seq![self@, no_address()]);
        r
    }

    /// Arguments that bring the interface down: `<interface> down`.
    pub fn down_args(&self) -> (r: Vec<Vec<u8>>)
        ensures
            words_view(r@) == seq![self@, word_down()],
    {
        let mut r: Vec<Vec<u8>> = Vec::new();
        r.push(self.interface());
        r.push(bytes_down());
        assert(words_view(r@) =~= seq![self@, word_down()]);
        r
    }
}

/// `-d`
pub open spec fn flag_d() -> Seq<u8> {
    seq![45u8, 100]
}

fn bytes_flag_d() -> (r: Vec<u8>)
    ensures
        r@ == flag_d(),
{
    let r: Vec<u8> = vec![45u8, 100];
    assert(r@ =~= flag_d());
    r
}

/// `-lf`
pub open spec fn flag_lf() -> Seq<u8> {
    seq![45u8, 108, 102]
}

fn bytes_flag_lf() -> (r: Vec<u8>)
    ensures
        r@ == flag_lf(),
{
    let r: Vec<u8> = vec![45u8, 108, 102];
    assert(r@ =~= flag_lf());
    r
}

/// `-cf`
pub open spec fn flag_cf() -> Seq<u8> {
    seq![45u8, 99, 102]
}

fn bytes_flag_cf() -> (r: Vec<u8>)
    ensures
        r@ == flag_cf(),
{
    let r: Vec<u8> = vec![45u8, 99, 102];
    assert(r@ =~= flag_cf());
    r
}

/// `/var/dhcpd/dhcpd.leases`
pub open spec fn dhcpd_leases_file() -> Seq<u8> {
    seq![47u8, 118, 97, 114, 47, 100, 104, 99, 112, 100, 47, 100, 104, 99, 112, 100, 46, 108, 101, 97, 115, 101, 115]
}

fn bytes_dhcpd_leases_file() -> (r: Vec<u8>)
    ensures
        r@ == dhcpd_leases_file(),
{
    let r: Vec<u8> = vec![47u8, 118, 97, 114, 47, 100, 104, 99, 112, 100, 47, 100, 104, 99, 112, 100, 46, 108, 101, 97, 115, 101, 115];
    assert(r@ =~= dhcpd_leases_file());
    r
}

/// `/etc/dhcpd.conf`
pub open spec fn dhcpd_config_file() -> Seq<u8> {
    seq![47u8, 101, 116, 99, 47, 100, 104, 99, 112, 100, 46, 99, 111, 110, 102]
}

fn bytes_dhcpd_config_file() -> (r: Vec<u8>)
    ensures
        r@ == dhcpd_config_file(),
{
    let r: Vec<u8> = vec![47u8, 101, 116, 99, 47, 100, 104, 99, 112, 100, 46, 99, 111, 110, 102];
    assert(r@ =~= dhcpd_config_file());
    r
}

/// `/etc/hostapd.conf`
pub open spec fn hostapd_config_file() -> Seq<u8> {
    seq![47u8, 101, 116, 99, 47, 104, 111, 115, 116, 97, 112, 100, 46, 99, 111, 110, 102]
}

fn bytes_hostapd_config_file() -> (r: Vec<u8>)
    ensures
        r@ == hostapd_config_file(),
{
    let r: Vec<u8> = vec![47u8, 101, 116, 99, 47, 104, 111, 115, 116, 97, 112, 100, 46, 99, 111, 110, 102];
    assert(r@ =~= hostapd_config_file());
    r
}

/// Arguments of the DHCP daemon, in the foreground with its leases and
/// configuration files, serving `interface`:
/// `-d -lf <leases> -cf <config> <interface>`.
pub fn dhcpd_args(interface: &[u8]) -> (r: Vec<Vec<u8>>)
    ensures
        words_view(r@) == seq![
            flag_d(),
            flag_lf(),
            dhcpd_leases_file(),
            flag_cf(),
            dhcpd_config_file(),
            interface@,
        ],
{
    let mut r: Vec<Vec<u8>> = Vec::new();
    r.push(bytes_flag_d());
    r.push(bytes_flag_lf());
    r.push(bytes_dhcpd_leases_file());
    r.push(bytes_flag_cf());
    r.push(bytes_dhcpd_config_file());
    r.push(slice_to_vec(interface));
    assert(words_view(r@) =~= seq![
        flag_d(),
        flag_lf(),
        dhcpd_leases_file(),
        flag_cf(),
        dhcpd_config_file(),
        interface@,
    ]);
    r
}

/// Arguments of the access-point daemon: its configuration file.
pub fn hostapd_args() -> (r: Vec<Vec<u8>>)
    ensures
        words_view(r@) == seq![hostapd_config_file()],
{
    let mut r: Vec<Vec<u8>> = Vec::new();
    r.push(bytes_hostapd_config_file());
    assert(words_view(r@) =~= seq![hostapd_config_file()]);
    r
}

} // verus!
