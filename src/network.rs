//! The descriptor of a VM's tap network interface.
use vstd::prelude::*;

verus! {

pub open spec fn digit_char(d: int) -> char {
    seq!['0', '1', '2', '3', '4', '5', '6', '7', '8', '9'][d]
}

/// The decimal digits of `n`, most significant first, without leading
/// zeros.
pub open spec fn decimal_text(n: nat) -> Seq<char>
    decreases n,
{
    if n < 10 {
        seq![digit_char(n as int)]
    } else {
        decimal_text(n / 10).push(digit_char((n % 10) as int))
    }
}

fn digit_str(d: u32) -> (r: &'static str)
    requires
        d < 10,
    ensures
        r@ == seq![digit_char(d as int)],
{
    proof {
        reveal_strlit("0");
        reveal_strlit("1");
        reveal_strlit("2");
        reveal_strlit("3");
        reveal_strlit("4");
        reveal_strlit("5");
        reveal_strlit("6");
        reveal_strlit("7");
        reveal_strlit("8");
        reveal_strlit("9");
    }
    let r = match d {
        0 => "0",
        1 => "1",
        2 => "2",
        3 => "3",
        4 => "4",
        5 => "5",
        6 => "6",
        7 => "7",
        8 => "8",
        _ => "9",
    };
    assert(r@ =~= seq![digit_char(d as int)]);
    r
}

/// The decimal text of `n`.
pub fn decimal(n: u32) -> (r: String)
    ensures
        r@ == decimal_text(n as nat),
    decreases n,
{
    if n < 10 {
        String::from_str(digit_str(n))
    } else {
        let mut r = decimal(n / 10);
        r.append(digit_str(n % 10));
        r
    }
}

/// A tap interface as the hypervisor sees it (no rate limiters).
#[derive(Debug)]
pub struct NetIface {
    pub guest_mac: String,
    pub iface_id: String,
    pub host_dev_name: String,
}

/// The interface for tap device number `tap_id`: guest MAC
/// `AA:FC:00:00:00:0<tap_id>`, id `<tap_id>`, host device `tap<tap_id>`.
pub fn network_interface_for(tap_id: u32) -> (r: NetIface)
    ensures
        r.guest_mac@ == "AA:FC:00:00:00:0"@ + decimal_text(tap_id as nat),
        r.iface_id@ == decimal_text(tap_id as nat),
        r.host_dev_name@ == "tap"@ + decimal_text(tap_id as nat),
{
    let id = decimal(tap_id);
    let mut guest_mac = String::from_str("AA:FC:00:00:00:0");
    guest_mac.append(id.as_str());
    let mut host_dev_name = String::from_str("tap");
    host_dev_name.append(id.as_str());
    NetIface { guest_mac, iface_id: id, host_dev_name }
}

} // verus!
