//! Finding terrariums on the local network: what an announcement says of a
//! device, and which devices were already reported.

use vstd::prelude::*;
use vstd::string::{StrSliceExecFns, StringExecFns};

verus! {

/// The service type under which terrariums announce themselves.
pub const SERVICE_TYPE: &'static str = "_oasis_terrarium._tcp.local.";

/// What an announcement says of a device.
#[derive(PartialEq, Eq, Hash, Debug)]
pub struct MdnsInfo {
    pub ip: String,
    pub fullname: String,
    pub hostname: String,
}

impl View for MdnsInfo {
    type V = (Seq<char>, Seq<char>, Seq<char>);

    /// The address, the advertised name and the host name.
    open spec fn view(&self) -> (Seq<char>, Seq<char>, Seq<char>) {
        (self.ip@, self.fullname@, self.hostname@)
    }
}

impl Clone for MdnsInfo {
    fn clone(&self) -> (r: MdnsInfo)
        ensures
            r@ == self@,
    {
        MdnsInfo {
            ip: self.ip.clone(),
            fullname: self.fullname.clone(),
            hostname: self.hostname.clone(),
        }
    }
}

impl MdnsInfo {
    /// Whether two announcements say the same of a device.
    pub fn same_device(&self, other: &MdnsInfo) -> (r: bool)
        ensures
            r == (self@ == other@),
    {
        self.ip == other.ip && self.fullname == other.fullname && self.hostname == other.hostname
    }
}

/// A host name as it is reported: the announced name without the point at
/// its end. `None` for a name that does not end in a point.
pub open spec fn host_name_of(announced: Seq<char>) -> Option<Seq<char>> {
    if announced.len() > 0 && announced.last() == '.' {
        Some(announced.drop_last())
    } else {
        None
    }
}

pub fn host_name(announced: &str) -> (r: Option<String>)
    ensures
        r is Some <==> host_name_of(announced@) is Some,
        r is Some ==> Some(r->0@) == host_name_of(announced@),
{
    let n: usize = announced.unicode_len();
    if n > 0 && announced.get_char(n - 1) == '.' {
        let name = String::from_str(announced.substring_char(0, n - 1));
        assert(name@ =~= announced@.drop_last());
        Some(name)
    } else {
        None
    }
}

/// The one address of a device that announced exactly one.
pub fn exactly_one(addresses: &Vec<String>) -> (r: Option<String>)
    ensures
        r is Some <==> addresses@.len() == 1,
        r is Some ==> r->0@ == addresses@[0]@,
{
    if addresses.len() == 1 {
        Some(addresses[0].clone())
    } else {
        None
    }
}

/// The devices that were reported, each once, in the order in which they
/// were first heard of.
pub struct Discovered {
    seen: Vec<MdnsInfo>,
}

impl View for Discovered {
    type V = Seq<(Seq<char>, Seq<char>, Seq<char>)>;

    closed spec fn view(&self) -> Seq<(Seq<char>, Seq<char>, Seq<char>)> {
        Seq::new(self.seen@.len(), |i: int| self.seen@[i]@)
    }
}

impl Discovered {
    pub fn new() -> (r: Discovered)
        ensures
            r@ == Seq::<(Seq<char>, Seq<char>, Seq<char>)>::empty(),
    {
        let found = Discovered { seen: Vec::new() };
        assert(found@ =~= Seq::empty());
        found
    }

    /// How many devices were reported.
    pub fn len(&self) -> (r: usize)
        ensures
            r == self@.len(),
    {
        self.seen.len()
    }

    /// Whether a device that says the same of itself as `info` was reported.
    pub fn contains(&self, info: &MdnsInfo) -> (r: bool)
        ensures
            r == self@.contains(info@),
    {
        let mut i: usize = 0;
        while i < self.seen.len()
            invariant
                i <= self.seen@.len(),
                forall|j: int| 0 <= j < i ==> self@[j] != info@,
            decreases self.seen@.len() - i,
        {
            if self.seen[i].same_device(info) {
                assert(self@[i as int] == info@);
                return true;
            }
            i = i + 1;
        }
        false
    }

    /// Takes note of an announcement and says whether it is news: whether no
    /// device that says the same of itself was reported before. What was
    /// reported once is not reported again.
    pub fn insert(&mut self, info: MdnsInfo) -> (r: bool)
        ensures
            r == !old(self)@.contains(info@),
            final(self)@ == if r {
                old(self)@.push(info@)
            } else {
                old(self)@
            },
            old(self)@.no_duplicates() ==> final(self)@.no_duplicates(),
    {
        if self.contains(&info) {
            return false;
        }
        let ghost before = self@;
        self.seen.push(info);
        proof {
            assert(self@ =~= before.push(info@));
            if before.no_duplicates() {
                assert forall|i: int, j: int|
                    0 <= i < self@.len() && 0 <= j < self@.len() && i != j implies self@[i]
                    != self@[j] by {
                    if i == before.len() {
                        assert(before.contains(before[j]));
                    } else if j == before.len() {
                        assert(before.contains(before[i]));
                    }
                }
            }
        }
        true
    }
}

} // verus!
