//! The printing destinations that CUPS reports, held as plain values.
use vstd::prelude::*;

verus! {

/// The shape of an array that CUPS allocated: its element count, and whether its pointer is null.
#[derive(Clone, Copy, Debug)]
pub struct FatPointerLayout {
    pub size: i32,
    pub ptr_is_null: bool,
}

impl FatPointerLayout {
    /// Returns `true` if the array has size 0 or its pointer is null, and `false` otherwise.
    pub fn is_null(&self) -> (r: bool)
        ensures
            r == (self.size == 0 || self.ptr_is_null),
    {
        self.size == 0 || self.ptr_is_null
    }

    /// Returns the position of the element at `index` if the array holds one there; the size
    /// is converted to an unsigned count, so a negative size counts as a very large one.
    pub fn get_at(&self, index: usize) -> (r: Option<usize>)
        ensures
            r == (if self.size == 0 || self.ptr_is_null || index >= (self.size as usize) {
                None
            } else {
                Some(index)
            }),
    {
        if self.is_null() || index >= (self.size as usize) {
            None
        } else {
            Some(index)
        }
    }
}

/// The handle by which the backend finds the information that CUPS copied for a destination.
#[derive(Clone, Copy, Debug, PartialEq, Eq, Structural)]
pub struct CupsDestinationInfo {
    pub handle: usize,
}

/// A CUPS destination (a printer or a class of printers), as CUPS describes it.
#[derive(Debug)]
pub struct CupsDestination {
    /// The name of the destination.
    pub name: String,
    /// The instance of the destination, if it has one.
    pub instance: Option<String>,
    /// The CUPS boolean that says whether this is the default destination.
    pub is_default: i32,
    /// The options of the destination, by name and value, in the order CUPS lists them.
    pub options: Vec<(String, String)>,
    /// The information that CUPS copied for this destination.
    pub info: CupsDestinationInfo,
}

impl CupsDestination {
    /// Creates a destination from what CUPS reports of it.
    pub fn new(
        name: String,
        instance: Option<String>,
        is_default: i32,
        options: Vec<(String, String)>,
        info: CupsDestinationInfo,
    ) -> (r: Self)
        ensures
            r.name == name,
            r.instance == instance,
            r.is_default == is_default,
            r.options == options,
            r.info == info,
    {
        CupsDestination { name, instance, is_default, options, info }
    }

    /// Returns the information that CUPS copied for this destination.
    pub fn get_info(&mut self) -> (r: &mut CupsDestinationInfo)
        ensures
            *r == old(self).info,
            final(self).info == *final(r),
            final(self).name == old(self).name,
            final(self).instance == old(self).instance,
            final(self).is_default == old(self).is_default,
            final(self).options == old(self).options,
    {
        &mut self.info
    }
}

/// The destinations that CUPS reports, in its order.
#[derive(Debug)]
pub struct CupsDestinations {
    destinations: Vec<CupsDestination>,
}

impl View for CupsDestinations {
    type V = Seq<CupsDestination>;

    closed spec fn view(&self) -> Seq<CupsDestination> {
        self.destinations@
    }
}

impl CupsDestinations {
    /// Holds the destinations that CUPS reported.
    pub fn new(destinations: Vec<CupsDestination>) -> (r: Self)
        ensures
            r@ == destinations@,
    {
        CupsDestinations { destinations }
    }

    /// Returns the number of destinations.
    pub fn len(&self) -> (r: usize)
        ensures
            r == self@.len(),
    {
        self.destinations.len()
    }

    /// Returns the destination at `index`, or `None` if there is none there.
    pub fn get(&self, index: usize) -> (r: Option<&CupsDestination>)
        ensures
            r is Some <==> index < self@.len(),
            r matches Some(d) ==> *d == self@[index as int],
    {
        if index < self.destinations.len() {
            Some(&self.destinations[index])
        } else {
            None
        }
    }
}

} // verus!
