use vstd::prelude::*;

verus! {

/// Identity under which a process handle is registered: a host name together
/// with a host-local identifier. A `Pid` is unique within one registry
/// instance for a given host; uniqueness across hosts is delegated to the
/// random identifier scheme of `IdGenerator`.
#[derive(Debug)]
pub struct Pid {
    pub host: String,
    pub id: String,
}

impl View for Pid {
    type V = (Seq<char>, Seq<char>);

    open spec fn view(&self) -> (Seq<char>, Seq<char>) {
        (self.host@, self.id@)
    }
}

impl Pid {
    pub fn new(host: String, id: String) -> (p: Pid)
        ensures
            p@ == (host@, id@),
    {
        Pid { host, id }
    }
}

impl Clone for Pid {
    fn clone(&self) -> (r: Self)
        ensures
            r == *self,
    {
        Pid { host: self.host.clone(), id: self.id.clone() }
    }
}

impl PartialEq for Pid {
    fn eq(&self, other: &Pid) -> (r: bool) {
        self.host == other.host && self.id == other.id
    }
}

impl vstd::std_specs::cmp::PartialEqSpecImpl for Pid {
    open spec fn obeys_eq_spec() -> bool {
        true
    }

    open spec fn eq_spec(&self, other: &Pid) -> bool {
        self.host@ == other.host@ && self.id@ == other.id@
    }
}

} // verus!
