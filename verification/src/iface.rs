//! The table of network interfaces and how each is looked up: the
//! loopback interface first, then the Ethernet interfaces that were found,
//! each reachable by its name.

use vstd::prelude::*;

verus! {

/// Name of the loopback interface.
pub const LOOPBACK_IFACE_NAME: &'static str = "lo";
/// Name of the virtio Ethernet interface.
pub const VIRTIO_IFACE_NAME: &'static str = "eth0";
/// Name of the r8169 interface.
pub const R8169_IFACE_NAME: &'static str = "r8169";
/// Name of the e1000 interface.
pub const E1000_IFACE_NAME: &'static str = "e1000";
/// Name of the e1000e interface.
pub const E1000E_IFACE_NAME: &'static str = "e1000e";

/// Name under which the r8169 network device registers.
pub const R8169_DEVICE_NAME: &'static str = "r8169-net";
/// Name under which the e1000 network device registers.
pub const E1000_DEVICE_NAME: &'static str = "e1000-net";
/// Name under which the e1000e network device registers.
pub const E1000E_DEVICE_NAME: &'static str = "e1000e-net";

/// An interface together with its name.
pub struct NamedIface<I> {
    pub name: String,
    pub iface: I,
}

/// The interfaces, in the order they were brought up; the loopback
/// interface is always the first.
pub struct IfaceTable<I> {
    entries: Vec<NamedIface<I>>,
}

/// The entry for an interface that may be missing, as a sequence of zero
/// or one (name, interface) pairs.
pub open spec fn opt_entry<I>(o: Option<I>, name: Seq<char>) -> Seq<(Seq<char>, I)> {
    match o {
        Some(i) => seq![(name, i)],
        None => Seq::empty(),
    }
}

/// Whether `k` is the first position of `s` whose name is `name`.
pub open spec fn is_first_named<I>(s: Seq<(Seq<char>, I)>, name: Seq<char>, k: int) -> bool {
    &&& 0 <= k < s.len()
    &&& s[k].0 == name
    &&& forall|j: int| 0 <= j < k ==> s[j].0 != name
}

/// Whether some position of `s` has the name `name`.
pub open spec fn has_name<I>(s: Seq<(Seq<char>, I)>, name: Seq<char>) -> bool {
    exists|k: int| 0 <= k < s.len() && s[k].0 == name
}

/// What a lookup by `name` returns: the first interface so named, or
/// nothing.
pub open spec fn lookup_spec<I>(s: Seq<(Seq<char>, I)>, name: Seq<char>, r: Option<&I>) -> bool {
    &&& (r is None <==> !has_name(s, name))
    &&& (r matches Some(x) ==> exists|k: int| is_first_named(s, name, k) && *x == s[k].1)
}

impl<I> IfaceTable<I> {
    #[verifier::type_invariant]
    spec fn inv(self) -> bool {
        self.entries.len() >= 1
    }

    /// The (name, interface) pairs of the table, in order.
    pub closed spec fn view_entries(&self) -> Seq<(Seq<char>, I)> {
        self.entries@.map_values(|e: NamedIface<I>| (e.name@, e.iface))
    }

    /// The table built at start-up: the loopback interface, then the
    /// virtio, r8169, e1000 and e1000e interfaces that exist, each under
    /// its name.
    pub fn build(
        lo: I,
        virtio: Option<I>,
        r8169: Option<I>,
        e1000: Option<I>,
        e1000e: Option<I>,
    ) -> (t: Self)
        ensures
            t.view_entries() == seq![(LOOPBACK_IFACE_NAME@, lo)] + opt_entry(
                virtio,
                VIRTIO_IFACE_NAME@,
            ) + opt_entry(r8169, R8169_IFACE_NAME@) + opt_entry(e1000, E1000_IFACE_NAME@)
                + opt_entry(e1000e, E1000E_IFACE_NAME@),
    {
        let ghost lo_g = lo;
        let ghost v_g = virtio;
        let ghost r_g = r8169;
        let ghost e_g = e1000;
        let ghost ee_g = e1000e;
        let mut entries: Vec<NamedIface<I>> = Vec::new();
        entries.push(NamedIface { name: LOOPBACK_IFACE_NAME.to_owned(), iface: lo });
        let ghost s0 = entries@;
        if let Some(i) = virtio {
            entries.push(NamedIface { name: VIRTIO_IFACE_NAME.to_owned(), iface: i });
        }
        let ghost s1 = entries@;
        if let Some(i) = r8169 {
            entries.push(NamedIface { name: R8169_IFACE_NAME.to_owned(), iface: i });
        }
        let ghost s2 = entries@;
        if let Some(i) = e1000 {
            entries.push(NamedIface { name: E1000_IFACE_NAME.to_owned(), iface: i });
        }
        let ghost s3 = entries@;
        if let Some(i) = e1000e {
            entries.push(NamedIface { name: E1000E_IFACE_NAME.to_owned(), iface: i });
        }
        let t = IfaceTable { entries };
        proof {
            let f = |e: NamedIface<I>| (e.name@, e.iface);
            assert(s0.map_values(f) =~= seq![(LOOPBACK_IFACE_NAME@, lo_g)]);
            assert(s1.map_values(f) =~= s0.map_values(f) + opt_entry(v_g, VIRTIO_IFACE_NAME@));
            assert(s2.map_values(f) =~= s1.map_values(f) + opt_entry(r_g, R8169_IFACE_NAME@));
            assert(s3.map_values(f) =~= s2.map_values(f) + opt_entry(e_g, E1000_IFACE_NAME@));
            assert(t.entries@.map_values(f) =~= s3.map_values(f) + opt_entry(
                ee_g,
                E1000E_IFACE_NAME@,
            ));
        }
        t
    }

    /// The number of interfaces.
    pub fn len(&self) -> (r: usize)
        ensures
            r == self.view_entries().len(),
            r >= 1,
    {
        proof {
            use_type_invariant(self);
        }
        self.entries.len()
    }

    /// The first interface named `name`, if any.
    pub fn find(&self, name: &String) -> (r: Option<&I>)
        ensures
            lookup_spec(self.view_entries(), name@, r),
    {
        let ghost s = self.view_entries();
        let mut i: usize = 0;
        while i < self.entries.len()
            invariant
                i <= self.entries.len(),
                s == self.entries@.map_values(|e: NamedIface<I>| (e.name@, e.iface)),
                forall|j: int| 0 <= j < i ==> s[j].0 != name@,
            decreases self.entries.len() - i,
        {
            if self.entries[i].name == *name {
                assert(is_first_named(s, name@, i as int));
                return Some(&self.entries[i].iface);
            }
            i = i + 1;
        }
        None
    }

}

/// The interface brought up first, the loopback interface.
pub fn loopback_iface<I>(ifaces: &IfaceTable<I>) -> (r: &I)
    ensures
        ifaces.view_entries().len() >= 1,
        *r == ifaces.view_entries()[0].1,
{
    proof {
        use_type_invariant(ifaces);
    }
    &ifaces.entries[0].iface
}

/// The second interface, where the virtio interface goes when present.
pub fn virtio_iface<I>(ifaces: &IfaceTable<I>) -> (r: Option<&I>)
    ensures
        ifaces.view_entries().len() > 1 ==> (r matches Some(x) && *x == ifaces.view_entries()[1].1),
        ifaces.view_entries().len() <= 1 ==> r is None,
{
    if ifaces.entries.len() > 1 {
        Some(&ifaces.entries[1].iface)
    } else {
        None
    }
}

/// The r8169 interface, if present.
pub fn r8169_iface<I>(ifaces: &IfaceTable<I>) -> (r: Option<&I>)
    ensures
        lookup_spec(ifaces.view_entries(), R8169_IFACE_NAME@, r),
{
    ifaces.find(&R8169_IFACE_NAME.to_owned())
}

/// The e1000 interface, if present.
pub fn e1000_iface<I>(ifaces: &IfaceTable<I>) -> (r: Option<&I>)
    ensures
        lookup_spec(ifaces.view_entries(), E1000_IFACE_NAME@, r),
{
    ifaces.find(&E1000_IFACE_NAME.to_owned())
}

/// The e1000e interface, if present.
pub fn e1000e_iface<I>(ifaces: &IfaceTable<I>) -> (r: Option<&I>)
    ensures
        lookup_spec(ifaces.view_entries(), E1000E_IFACE_NAME@, r),
{
    ifaces.find(&E1000E_IFACE_NAME.to_owned())
}

/// The first available Ethernet interface: the second interface when
/// there is one, else the r8169, else the e1000, else the e1000e.
pub fn eth_iface<I>(ifaces: &IfaceTable<I>) -> (r: Option<&I>)
    ensures
        ifaces.view_entries().len() > 1 ==> (r matches Some(x) && *x == ifaces.view_entries()[1].1),
        ifaces.view_entries().len() <= 1 ==> {
            let s = ifaces.view_entries();
            if has_name(s, R8169_IFACE_NAME@) {
                lookup_spec(s, R8169_IFACE_NAME@, r)
            } else if has_name(s, E1000_IFACE_NAME@) {
                lookup_spec(s, E1000_IFACE_NAME@, r)
            } else {
                lookup_spec(s, E1000E_IFACE_NAME@, r)
            }
        },
{
    let v = virtio_iface(ifaces);
    if v.is_some() {
        return v;
    }
    let a = r8169_iface(ifaces);
    if a.is_some() {
        return a;
    }
    let b = e1000_iface(ifaces);
    if b.is_some() {
        return b;
    }
    e1000e_iface(ifaces)
}

/// All interfaces, in order.
pub fn iter_all_ifaces<I>(ifaces: &IfaceTable<I>) -> (r: &[NamedIface<I>])
    ensures
        r@.map_values(|e: NamedIface<I>| (e.name@, e.iface)) == ifaces.view_entries(),
{
    ifaces.entries.as_slice()
}

} // verus!
