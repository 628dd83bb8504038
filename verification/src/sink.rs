use vstd::prelude::*;

verus! {

/// TF_INVALID_COOKIE: no sink is advised.
pub const TF_INVALID_COOKIE: u32 = 0xFFFF_FFFF;

/// The registration of one event sink with its source: the cookie that the
/// source handed out, and whether the source is still held.
#[derive(PartialEq, Eq, Structural, Clone, Copy, Debug)]
pub struct SinkRegistration {
    pub cookie: u32,
    pub has_source: bool,
}

/// What ending a registration takes.
#[derive(PartialEq, Eq, Structural, Clone, Copy, Debug)]
pub enum UnadvisePlan {
    /// Nothing is registered: there is nothing to do.
    Nothing,
    /// Forget the registration; no source is held to tell.
    Forget,
    /// Tell the source to drop the sink with this cookie, then forget the
    /// registration (unless the source fails).
    UnadviseThenForget(u32),
}

/// The plan for ending the registration `r`.
pub open spec fn spec_unadvise_plan(r: SinkRegistration) -> UnadvisePlan {
    if r.cookie == TF_INVALID_COOKIE {
        UnadvisePlan::Nothing
    } else if r.has_source {
        UnadvisePlan::UnadviseThenForget(r.cookie)
    } else {
        UnadvisePlan::Forget
    }
}

impl SinkRegistration {
    /// Nothing registered.
    pub fn new() -> (r: Self)
        ensures
            r.cookie == TF_INVALID_COOKIE,
            !r.has_source,
    {
        SinkRegistration { cookie: TF_INVALID_COOKIE, has_source: false }
    }

    /// Records the cookie that the source returned for the sink.
    pub fn advised(&mut self, cookie: u32)
        ensures
            final(self).cookie == cookie,
            final(self).has_source,
    {
        self.cookie = cookie;
        self.has_source = true;
    }

    /// What ending this registration takes.
    pub fn unadvise_plan(&self) -> (p: UnadvisePlan)
        ensures
            p == spec_unadvise_plan(*self),
    {
        if self.cookie == TF_INVALID_COOKIE {
            UnadvisePlan::Nothing
        } else if self.has_source {
            UnadvisePlan::UnadviseThenForget(self.cookie)
        } else {
            UnadvisePlan::Forget
        }
    }

    /// Forgets the registration.
    pub fn forget(&mut self)
        ensures
            final(self).cookie == TF_INVALID_COOKIE,
            !final(self).has_source,
    {
        self.cookie = TF_INVALID_COOKIE;
        self.has_source = false;
    }
}

/// A sink advised under a valid cookie is unadvised with that same cookie,
/// and once forgotten there is nothing left to undo.
pub proof fn lemma_advise_then_unadvise(cookie: u32)
    requires
        cookie != TF_INVALID_COOKIE,
    ensures
        spec_unadvise_plan(SinkRegistration { cookie, has_source: true })
            == UnadvisePlan::UnadviseThenForget(cookie),
        spec_unadvise_plan(SinkRegistration { cookie: TF_INVALID_COOKIE, has_source: false })
            == UnadvisePlan::Nothing,
{
}

} // verus!
