use vstd::prelude::*;

use crate::device::{device_matches, mentions_host, Device};

verus! {

/// Decides whether an action applies to a device.
pub trait Filter {
    /// Whether the filter, in its current state, selects `device`.
    spec fn selects(&self, device: Device) -> bool;

    /// Checks whether `device` is selected.
    fn filter(&mut self, device: &Device) -> (r: bool)
        ensures
            r == old(self).selects(*device),
    ;
}

/// A filter that selects every device.
#[derive(Debug)]
pub struct NoOpFilter(());

impl Default for NoOpFilter {
    fn default() -> (r: NoOpFilter)
        ensures
            forall|d: Device| r.selects(d),
    {
        NoOpFilter(())
    }
}

impl Filter for NoOpFilter {
    open spec fn selects(&self, device: Device) -> bool {
        true
    }

    fn filter(&mut self, _device: &Device) -> (r: bool) {
        true
    }
}

/// A filter that asks a closure.
pub struct ClosureFilter<F: Fn(&Device) -> bool>(F);

impl<F: Fn(&Device) -> bool> ClosureFilter<F> {
    /// The closure asked.
    pub closed spec fn closure(&self) -> F {
        self.0
    }

    /// The closure's answer for `device`.
    pub open spec fn answer(&self, device: Device) -> bool {
        self.closure().ensures((&device,), true)
    }

    /// The closure can be called on every device and gives one answer for each.
    #[verifier::type_invariant]
    spec fn decides(&self) -> bool {
        &&& forall|d: &Device| #[trigger] self.0.requires((d,))
        &&& forall|d: &Device, a: bool, b: bool|
            #[trigger] self.0.ensures((d,), a) && #[trigger] self.0.ensures((d,), b) ==> a == b
    }

    /// Creates a filter from a closure that answers every device, always alike.
    pub fn new(closure: F) -> (r: Self)
        requires
            forall|d: &Device| #[trigger] closure.requires((d,)),
            forall|d: &Device, a: bool, b: bool|
                #[trigger] closure.ensures((d,), a) && #[trigger] closure.ensures((d,), b) ==> a
                    == b,
        ensures
            r.closure() == closure,
    {
        ClosureFilter(closure)
    }
}

impl<F: Fn(&Device) -> bool> Filter for ClosureFilter<F> {
    open spec fn selects(&self, device: Device) -> bool {
        self.answer(device)
    }

    fn filter(&mut self, device: &Device) -> (r: bool) {
        proof {
            use_type_invariant(&*self);
        }
        (self.0)(device)
    }
}

/// A filter that selects what both of its parts select, asking the second only when
/// the first selects.
pub struct ChainFilter<First, Second> {
    first: First,
    second: Second,
}

impl<First, Second> ChainFilter<First, Second> {
    /// The filter asked first.
    pub closed spec fn first(&self) -> First {
        self.first
    }

    /// The filter asked second.
    pub closed spec fn second(&self) -> Second {
        self.second
    }
}

impl<First: Filter, Second: Filter> Filter for ChainFilter<First, Second> {
    open spec fn selects(&self, device: Device) -> bool {
        self.first().selects(device) && self.second().selects(device)
    }

    fn filter(&mut self, device: &Device) -> (r: bool) {
        self.filter_both(device)
    }
}

impl<First: Filter, Second: Filter> ChainFilter<First, Second> {
    /// Asks the first filter, and the second only when the first selects: when the
    /// first rejects, the second filter is left as it was.
    pub fn filter_both(&mut self, device: &Device) -> (r: bool)
        ensures
            r == old(self).selects(*device),
            !old(self).first().selects(*device) ==> final(self).second() == old(self).second(),
    {
        self.first.filter(device) && self.second.filter(device)
    }
}

/// Chaining is associative: asking `a` then `b` then `c` selects the same devices
/// however the chain is grouped, namely those that all three select.
pub proof fn chain_is_associative<A: Filter, B: Filter, C: Filter>(
    left: ChainFilter<ChainFilter<A, B>, C>,
    right: ChainFilter<A, ChainFilter<B, C>>,
    d: Device,
)
    requires
        left.first().first() == right.first(),
        left.first().second() == right.second().first(),
        left.second() == right.second().second(),
    ensures
        left.selects(d) == right.selects(d),
        left.selects(d) == (right.first().selects(d) && left.first().second().selects(d)
            && left.second().selects(d)),
{
}

/// Chaining of filters.
pub trait FilterExt: Filter + Sized {
    /// A filter that asks `self` first and `next` only when `self` selects.
    fn chain<Next: Filter>(self, next: Next) -> (r: ChainFilter<Self, Next>)
        ensures
            r.first() == self,
            r.second() == next,
    {
        ChainFilter { first: self, second: next }
    }
}

impl<T: Filter> FilterExt for T {

}

/// The selection rule of the command line: no device when no search string is given;
/// no device whose name mentions "host" (in any case) unless `allow_host`; otherwise
/// the devices that match at least one search string.
pub open spec fn search_selects(search: Seq<String>, exact: bool, allow_host: bool, d: Device) -> bool {
    &&& search.len() > 0
    &&& allow_host || !mentions_host(d.name@)
    &&& exists|k: int| 0 <= k < search.len() && device_matches(d, #[trigger] search[k]@, exact)
}

/// A filter that selects the devices matching any of a set of search strings.
pub struct DeviceMatch {
    search: Vec<String>,
    exact: bool,
    allow_host: bool,
}

impl DeviceMatch {
    /// The search strings.
    pub closed spec fn searches(&self) -> Seq<String> {
        self.search@
    }

    /// Whether a search string must equal the port or name rather than be part of it.
    pub closed spec fn is_exact(&self) -> bool {
        self.exact
    }

    /// Whether devices whose name mentions "host" may be selected.
    pub closed spec fn allows_host(&self) -> bool {
        self.allow_host
    }

    /// A filter for `search`, compared exactly or by containment, that passes over
    /// "host" devices unless `allow_host` is set.
    pub fn new(search: Vec<String>, exact: bool, allow_host: bool) -> (r: Self)
        ensures
            r.searches() == search@,
            r.is_exact() == exact,
            r.allows_host() == allow_host,
    {
        DeviceMatch { search, exact, allow_host }
    }
}

/// With no search string, a device match selects no device at all.
pub proof fn empty_search_selects_nothing(m: DeviceMatch, d: Device)
    requires
        m.searches().len() == 0,
    ensures
        !m.selects(d),
{
}

impl Filter for DeviceMatch {
    open spec fn selects(&self, device: Device) -> bool {
        search_selects(self.searches(), self.is_exact(), self.allows_host(), device)
    }

    fn filter(&mut self, device: &Device) -> (r: bool) {
        if self.search.len() == 0 {
            return false;
        }
        if !self.allow_host && device.mentions_host() {
            return false;
        }
        let mut k: usize = 0;
        while k < self.search.len()
            invariant
                k <= self.search@.len(),
                self.search@.len() > 0,
                self.allow_host || !mentions_host(device.name@),
                *self == *old(self),
                forall|j: int| 0 <= j < k ==> !device_matches(*device, #[trigger] self.search@[j]@, self.exact),
            decreases self.search@.len() - k,
        {
            if device.matches(self.search[k].as_str(), self.exact) {
                assert(device_matches(*device, self.search@[k as int]@, self.exact));
                return true;
            }
            k = k + 1;
        }
        false
    }
}

} // verus!
