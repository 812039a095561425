//! The radios and interfaces of a device that manages wireless access points.
//!
//! A device is asked for its radios first. Only if it has any is it asked for its interfaces, and
//! then for the clients registered on them.

use crate::table::NameTable;
use vstd::prelude::*;

verus! {

/// The listing of radios is being read.
pub struct RadioRows<R> {
    radios: NameTable<R>,
}

/// The listing of interfaces is being read. There is at least one radio.
pub struct InterfaceRows<R> {
    radios: NameTable<R>,
    interfaces: NameTable<Option<Vec<u8>>>,
}

/// Radios by the name of their interface, and the masters of the interfaces. There is at least
/// one radio.
pub struct Inventory<R> {
    radios: NameTable<R>,
    interfaces: NameTable<Option<Vec<u8>>>,
}

/// The interface that owns the radio which `interface` uses: its master where it has one, else
/// itself.
pub open spec fn master_interface(
    interfaces: Map<Seq<u8>, Option<Vec<u8>>>,
    interface: Seq<u8>,
) -> Seq<u8> {
    if interfaces.contains_key(interface) && interfaces[interface] is Some {
        interfaces[interface]->0@
    } else {
        interface
    }
}

/// The radio that `interface` uses.
pub open spec fn serving_radio<R>(
    radios: Map<Seq<u8>, R>,
    interfaces: Map<Seq<u8>, Option<Vec<u8>>>,
    interface: Seq<u8>,
) -> Option<R> {
    let master = master_interface(interfaces, interface);
    if radios.contains_key(master) {
        Some(radios[master])
    } else {
        None
    }
}

impl<R> RadioRows<R> {
    /// The radios read so far.
    pub closed spec fn radios(self) -> Map<Seq<u8>, R> {
        self.radios@
    }

    /// The table is well-formed.
    pub closed spec fn wf(self) -> bool {
        self.radios.wf()
    }

    /// No row was read.
    pub fn new() -> (rows: Self)
        ensures
            rows.wf(),
            rows.radios() == Map::<Seq<u8>, R>::empty(),
    {
        RadioRows { radios: NameTable::new() }
    }

    /// Reads a row. It replaces an earlier one of the same interface.
    pub fn row(&mut self, interface: Vec<u8>, radio: R)
        requires
            old(self).wf(),
        ensures
            final(self).wf(),
            final(self).radios() == old(self).radios().insert(interface@, radio),
    {
        self.radios.insert(interface, radio);
    }

    /// Ends the listing. A device without radios is not asked for anything more.
    pub fn finish(self) -> (next: Option<InterfaceRows<R>>)
        requires
            self.wf(),
        ensures
            next is None <==> self.radios() == Map::<Seq<u8>, R>::empty(),
            next matches Some(rows) ==> {
                &&& rows.wf()
                &&& rows.radios() == self.radios()
                &&& rows.interfaces() == Map::<Seq<u8>, Option<Vec<u8>>>::empty()
            },
    {
        if self.radios.is_empty() {
            None
        } else {
            Some(InterfaceRows { radios: self.radios, interfaces: NameTable::new() })
        }
    }
}

impl<R> InterfaceRows<R> {
    /// The radios of the device.
    pub closed spec fn radios(self) -> Map<Seq<u8>, R> {
        self.radios@
    }

    /// The interfaces read so far, with the names of their masters.
    pub closed spec fn interfaces(self) -> Map<Seq<u8>, Option<Vec<u8>>> {
        self.interfaces@
    }

    /// The tables are well-formed, and there is a radio.
    pub closed spec fn wf(self) -> bool {
        &&& self.radios.wf()
        &&& self.interfaces.wf()
        &&& self.radios@ != Map::<Seq<u8>, R>::empty()
    }

    /// Reads a row. It replaces an earlier one of the same name.
    pub fn row(&mut self, name: Vec<u8>, master_interface: Option<Vec<u8>>)
        requires
            old(self).wf(),
        ensures
            final(self).wf(),
            final(self).radios() == old(self).radios(),
            final(self).interfaces() == old(self).interfaces().insert(name@, master_interface),
    {
        self.interfaces.insert(name, master_interface);
    }

    /// Ends the listing.
    pub fn finish(self) -> (inventory: Inventory<R>)
        requires
            self.wf(),
        ensures
            inventory.wf(),
            inventory.radios() == self.radios(),
            inventory.interfaces() == self.interfaces(),
    {
        Inventory { radios: self.radios, interfaces: self.interfaces }
    }
}

impl<R> Inventory<R> {
    /// The radios of the device.
    pub closed spec fn radios(self) -> Map<Seq<u8>, R> {
        self.radios@
    }

    /// The interfaces of the device, with the names of their masters.
    pub closed spec fn interfaces(self) -> Map<Seq<u8>, Option<Vec<u8>>> {
        self.interfaces@
    }

    /// The tables are well-formed, and there is a radio.
    pub closed spec fn wf(self) -> bool {
        &&& self.radios.wf()
        &&& self.interfaces.wf()
        &&& self.radios@ != Map::<Seq<u8>, R>::empty()
    }

    /// The radio that the clients of `interface` are served by.
    pub fn serving_radio(&self, interface: &[u8]) -> (radio: Option<&R>)
        requires
            self.wf(),
        ensures
            match radio {
                Some(r) => serving_radio(self.radios(), self.interfaces(), interface@) == Some(*r),
                None => serving_radio(self.radios(), self.interfaces(), interface@) is None,
            },
            ({
                let interfaces = self.interfaces();
                let master = if interfaces.contains_key(interface@) && interfaces[interface@] is Some {
                    interfaces[interface@]->0@
                } else {
                    interface@
                };
                &&& radio is Some <==> self.radios().contains_key(master)
                &&& radio matches Some(r) ==> *r == self.radios()[master]
            }),
    {
        match self.interfaces.get(interface) {
            Some(Some(master)) => self.radios.get(master.as_slice()),
            _ => self.radios.get(interface),
        }
    }
}

/// The clients of an interface are served by the same radio as those of its master, unless the
/// master has a master of its own.
pub proof fn interface_shares_the_radio_of_its_master<R>(
    radios: Map<Seq<u8>, R>,
    interfaces: Map<Seq<u8>, Option<Vec<u8>>>,
    interface: Seq<u8>,
    master: Seq<u8>,
)
    requires
        master_interface(interfaces, interface) == master,
        master_interface(interfaces, master) == master,
    ensures
        serving_radio(radios, interfaces, interface) == serving_radio(radios, interfaces, master),
{
}

/// An interface with a master uses the radio of that master; one without, and one that is not
/// listed, uses its own. The radio is known if and only if it is listed.
pub proof fn radio_is_that_of_the_master<R>(
    radios: Map<Seq<u8>, R>,
    interfaces: Map<Seq<u8>, Option<Vec<u8>>>,
    interface: Seq<u8>,
    owner: Seq<u8>,
)
    requires
        interfaces.contains_key(interface) && interfaces[interface] is Some
            ==> interfaces[interface]->0@ == owner,
        !(interfaces.contains_key(interface) && interfaces[interface] is Some)
            ==> owner == interface,
    ensures
        master_interface(interfaces, interface) == owner,
        serving_radio(radios, interfaces, interface) is Some <==> radios.contains_key(owner),
        radios.contains_key(owner) ==> serving_radio(radios, interfaces, interface) == Some(
            radios[owner],
        ),
{
}

} // verus!
