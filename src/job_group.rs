use vstd::prelude::*;

verus! {

/// The process group backing one job, with the terminal modes it last had.
///
/// `M` is the terminal mode snapshot: an opaque value, captured and replayed
/// verbatim, never interpreted here.
pub struct JobGroup<M> {
    pgid: Option<i32>,
    wants_terminal: bool,
    is_foreground: bool,
    /// The terminal modes saved when the group last gave the terminal back.
    tmodes: Option<M>,
}

impl<M> JobGroup<M> {
    pub closed spec fn spec_pgid(&self) -> Option<i32> {
        self.pgid
    }

    pub closed spec fn spec_wants_terminal(&self) -> bool {
        self.wants_terminal
    }

    pub closed spec fn spec_is_foreground(&self) -> bool {
        self.is_foreground
    }

    pub closed spec fn spec_tmodes(&self) -> Option<M> {
        self.tmodes
    }

    /// The modes to put back on the terminal before the group runs in the foreground.
    pub open spec fn spec_modes_to_restore(&self) -> Option<M> {
        if self.spec_wants_terminal() {
            self.spec_tmodes()
        } else {
            None
        }
    }

    /// `other` is this group with nothing changed but, perhaps, its saved modes.
    pub open spec fn same_but_modes(&self, other: Self) -> bool {
        &&& other.spec_pgid() == self.spec_pgid()
        &&& other.spec_wants_terminal() == self.spec_wants_terminal()
        &&& other.spec_is_foreground() == self.spec_is_foreground()
    }

    /// A group that wants the terminal has a process group id, and it is not negative.
    pub open spec fn wf(&self) -> bool {
        self.spec_wants_terminal() ==> (self.spec_pgid().is_some() && self.spec_pgid().unwrap() >= 0)
    }

    /// A new group, in the background, with no saved modes.
    pub fn new(pgid: Option<i32>, wants_terminal: bool) -> (r: Self)
        ensures
            r.spec_pgid() == pgid,
            r.spec_wants_terminal() == wants_terminal,
            !r.spec_is_foreground(),
            r.spec_tmodes().is_none(),
    {
        JobGroup { pgid, wants_terminal, is_foreground: false, tmodes: None }
    }

    pub fn get_pgid(&self) -> (r: Option<i32>)
        ensures
            r == self.spec_pgid(),
    {
        self.pgid
    }

    pub fn wants_terminal(&self) -> (r: bool)
        ensures
            r == self.spec_wants_terminal(),
    {
        self.wants_terminal
    }

    pub fn is_foreground(&self) -> (r: bool)
        ensures
            r == self.spec_is_foreground(),
    {
        self.is_foreground
    }

    pub fn set_is_foreground(&mut self, value: bool)
        ensures
            final(self).spec_is_foreground() == value,
            final(self).spec_pgid() == old(self).spec_pgid(),
            final(self).spec_wants_terminal() == old(self).spec_wants_terminal(),
            final(self).spec_tmodes() == old(self).spec_tmodes(),
    {
        self.is_foreground = value;
    }

    pub fn tmodes(&self) -> (r: &Option<M>)
        ensures
            *r == self.spec_tmodes(),
    {
        &self.tmodes
    }

    pub fn set_tmodes(&mut self, modes: M)
        ensures
            final(self).spec_tmodes() == Some(modes),
            final(self).spec_pgid() == old(self).spec_pgid(),
            final(self).spec_wants_terminal() == old(self).spec_wants_terminal(),
            final(self).spec_is_foreground() == old(self).spec_is_foreground(),
    {
        self.tmodes = Some(modes);
    }

    /// The modes to put back on the terminal before the group runs in the
    /// foreground: the saved ones, where the group wants the terminal.
    pub fn modes_to_restore(&self) -> (r: Option<&M>)
        ensures
            match r {
                Some(m) => self.spec_modes_to_restore() == Some(*m),
                None => self.spec_modes_to_restore().is_none(),
            },
    {
        if self.wants_terminal {
            self.tmodes.as_ref()
        } else {
            None
        }
    }
}

} // verus!
