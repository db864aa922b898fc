use vstd::prelude::*;
use crate::family::{opt_string_view, Device, Family, Probe};
use crate::record::fingerprint;
use crate::text::has_prefix;

verus! {

/// Which probes a search keeps.
#[derive(Debug)]
pub struct DeviceFilter {
    /// Keep devices of no known family too.
    pub all: bool,
    /// Keep only devices whose fingerprint starts with this text.
    pub device: Option<String>,
}

impl DeviceFilter {
    pub fn new(all: bool, device: Option<String>) -> (r: DeviceFilter)
        ensures
            r.all == all,
            r.device == device,
    {
        DeviceFilter { all, device }
    }
}

/// Whether the fingerprint of `p` starts with `prefix`, where there is one.
pub open spec fn prefix_admits(prefix: Option<Seq<char>>, p: Probe) -> bool {
    match prefix {
        Some(q) => q.is_prefix_of(fingerprint(p.record())),
        None => true,
    }
}

/// Whether a search with these settings keeps `p`.
pub open spec fn filter_keeps(all: bool, prefix: Option<Seq<char>>, p: Probe) -> bool {
    &&& all || p.family() != Family::Unknown
    &&& prefix_admits(prefix, p)
}

/// The probes of `devices` that a search with these settings keeps, in
/// their order.
pub open spec fn search_result(devices: Seq<Probe>, all: bool, prefix: Option<Seq<char>>) -> Seq<
    Probe,
> {
    devices.filter(|p: Probe| filter_keeps(all, prefix, p))
}

/// Whether `filter` keeps the probe `p`.
pub fn matches_filter(p: &Probe, filter: &DeviceFilter) -> (r: bool)
    ensures
        r == filter_keeps(filter.all, opt_string_view(filter.device), *p),
{
    if !filter.all && p.is_unknown() {
        return false;
    }
    match &filter.device {
        Some(q) => {
            let h = p.hash();
            has_prefix(h.as_str(), q.as_str())
        },
        None => true,
    }
}

/// The probes of `devices` that `filter` keeps, in the order given.
pub fn search(devices: Vec<Probe>, filter: &DeviceFilter) -> (r: Vec<Probe>)
    ensures
        r@ == search_result(devices@, filter.all, opt_string_view(filter.device)),
{
    let n = devices.len();
    let ghost all = devices@;
    let ghost pred = |p: Probe| filter_keeps(filter.all, opt_string_view(filter.device), p);
    let mut rest = devices;
    let mut out: Vec<Probe> = Vec::new();
    let mut k: usize = 0;
    while rest.len() > 0
        invariant
            all.len() == n,
            k + rest@.len() == all.len(),
            rest@ == all.subrange(k as int, all.len() as int),
            out@ == all.subrange(0, k as int).filter(pred),
            pred == (|p: Probe| filter_keeps(filter.all, opt_string_view(filter.device), p)),
        decreases rest@.len(),
    {
        let p = rest.remove(0);
        let keep = matches_filter(&p, filter);
        proof {
            let s = all.subrange(0, k + 1);
            assert(s.drop_last() =~= all.subrange(0, k as int));
            assert(s.last() == p);
            reveal(Seq::filter);
        }
        if keep {
            out.push(p);
        }
        k = k + 1;
    }
    assert(all.subrange(0, k as int) =~= all);
    out
}

/// Without `all`, a search returns no device of unknown family.
pub proof fn lemma_search_drops_unknown(devices: Seq<Probe>, prefix: Option<Seq<char>>)
    ensures
        forall|i: int|
            0 <= i < search_result(devices, false, prefix).len() ==> (#[trigger] search_result(
                devices,
                false,
                prefix,
            )[i]).family() != Family::Unknown,
{
    broadcast use vstd::seq_lib::group_filter_ensures;

    let pred = |p: Probe| filter_keeps(false, prefix, p);
    assert forall|i: int| 0 <= i < devices.filter(pred).len() implies pred(
        #[trigger] devices.filter(pred)[i],
    ) by {}
}

/// With `all`, a search returns exactly the devices that the prefix admits,
/// in their order.
pub proof fn lemma_search_all_is_prefix_only(devices: Seq<Probe>, prefix: Option<Seq<char>>)
    ensures
        search_result(devices, true, prefix) == devices.filter(|p: Probe| prefix_admits(prefix, p)),
{
    let a = |p: Probe| filter_keeps(true, prefix, p);
    let b = |p: Probe| prefix_admits(prefix, p);
    assert(a =~= b);
}

/// An empty prefix constrains a search no more than no prefix.
pub proof fn lemma_empty_prefix_is_no_prefix(devices: Seq<Probe>, all: bool)
    ensures
        search_result(devices, all, Some(Seq::<char>::empty())) == search_result(devices, all, None),
{
    let a = |p: Probe| filter_keeps(all, Some(Seq::<char>::empty()), p);
    let b = |p: Probe| filter_keeps(all, None, p);
    assert forall|p: Probe| #[trigger] a(p) == b(p) by {
        assert(Seq::<char>::empty() =~= fingerprint(p.record()).subrange(0, 0));
    }
    assert(a =~= b);
}

} // verus!
