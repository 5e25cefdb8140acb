//! Network interfaces.

use vstd::prelude::*;

verus! {

/// One network interface. Of the addresses only the name is known here.
#[derive(Clone, Debug, PartialEq, Eq)]
pub struct NetworkInterface {
    pub iface: String,
    pub ip4: String,
    pub ip6: String,
    pub mac: String,
}

/// The view of [`NetworkInterface`]: its texts as sequences of characters.
pub struct NetworkInterfaceView {
    pub iface: Seq<char>,
    pub ip4: Seq<char>,
    pub ip6: Seq<char>,
    pub mac: Seq<char>,
}

impl View for NetworkInterface {
    type V = NetworkInterfaceView;

    open spec fn view(&self) -> NetworkInterfaceView {
        NetworkInterfaceView {
            iface: self.iface@,
            ip4: self.ip4@,
            ip6: self.ip6@,
            mac: self.mac@,
        }
    }
}

impl DeepView for NetworkInterface {
    type V = NetworkInterfaceView;

    open spec fn deep_view(&self) -> NetworkInterfaceView {
        self@
    }
}

impl Default for NetworkInterface {
    fn default() -> (out: Self)
        ensures
            out@ == interface_named(Seq::empty()),
    {
        NetworkInterface {
            iface: String::new(),
            ip4: String::new(),
            ip6: String::new(),
            mac: String::new(),
        }
    }
}

/// The network interfaces of the machine.
#[derive(Clone, Debug, PartialEq, Eq)]
pub struct NetworkInfo {
    pub interfaces: Vec<NetworkInterface>,
}

/// The view of [`NetworkInfo`]: its texts as sequences of characters.
pub struct NetworkInfoView {
    pub interfaces: Seq<NetworkInterfaceView>,
}

impl View for NetworkInfo {
    type V = NetworkInfoView;

    open spec fn view(&self) -> NetworkInfoView {
        NetworkInfoView { interfaces: self.interfaces.deep_view() }
    }
}

impl DeepView for NetworkInfo {
    type V = NetworkInfoView;

    open spec fn deep_view(&self) -> NetworkInfoView {
        self@
    }
}

impl Default for NetworkInfo {
    fn default() -> (out: Self)
        ensures
            out@.interfaces.len() == 0,
    {
        NetworkInfo { interfaces: Vec::new() }
    }
}

/// The interface called `name`, with no address known.
pub open spec fn interface_named(name: Seq<char>) -> NetworkInterfaceView {
    NetworkInterfaceView {
        iface: name,
        ip4: Seq::empty(),
        ip6: Seq::empty(),
        mac: Seq::empty(),
    }
}

/// One interface for each of `names`, in their order.
pub open spec fn interfaces_of(names: Seq<Seq<char>>) -> Seq<NetworkInterfaceView> {
    Seq::new(names.len(), |i: int| interface_named(names[i]))
}

/// Lists the network interfaces whose names the metrics source reports.
pub fn collect_network(names: &Vec<String>) -> (info: NetworkInfo)
    ensures
        info@.interfaces == interfaces_of(names.deep_view()),
{
    let mut interfaces: Vec<NetworkInterface> = Vec::new();
    let mut i: usize = 0;
    while i < names.len()
        invariant
            i <= names.len(),
            interfaces.deep_view() == interfaces_of(names.deep_view()).take(i as int),
        decreases names.len() - i,
    {
        let interface = NetworkInterface {
            iface: names[i].clone(),
            ip4: String::new(),
            ip6: String::new(),
            mac: String::new(),
        };
        let ghost before = interfaces.deep_view();
        interfaces.push(interface);
        assert(interfaces.deep_view() == before.push(interface@));
        i += 1;
    }
    NetworkInfo { interfaces }
}

} // verus!
