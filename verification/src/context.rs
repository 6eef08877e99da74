use vstd::prelude::*;

verus! {

/// The frame scheduler that all animated outputs of one application share.
/// It keeps at most one frame callback registered with the platform at a
/// time, and holds the handle `H` of that registration while it is pending.
pub struct AnimationContext<H> {
    handle: Option<H>,
}

/// How many registrations with the platform `calls` requests in a row make,
/// with no frame in between, when the first one finds the scheduler pending
/// or not.
pub open spec fn registrations(pending: bool, calls: nat) -> nat
    decreases calls,
{
    if calls == 0 {
        0
    } else if pending {
        registrations(true, (calls - 1) as nat)
    } else {
        1 + registrations(true, (calls - 1) as nat)
    }
}

impl<H> AnimationContext<H> {
    /// The handle of the registration that is pending, if one is.
    pub closed spec fn pending(self) -> Option<H> {
        self.handle
    }

    /// Sets up a scheduler with no frame requested.
    pub fn provide() -> (context: Self)
        ensures
            context.pending() is None,
    {
        AnimationContext { handle: None }
    }

    /// Whether a frame callback is registered and has not fired yet.
    pub fn is_pending(&self) -> (b: bool)
        ensures
            b == (self.pending() is Some),
    {
        self.handle.is_some()
    }

    /// Asks for a frame. While a registration is pending this does nothing
    /// and hands `register` back unused; otherwise `register` is called once,
    /// its handle is kept, and nothing is handed back.
    pub fn request_animation_frame<R: FnOnce() -> H>(&mut self, register: R) -> (unused: Option<R>)
        requires
            register.requires(()),
        ensures
            final(self).pending() is Some,
            unused is None <==> old(self).pending() is None,
            unused is Some ==> unused == Some(register) && *final(self) == *old(self),
            unused is None ==> register.ensures((), final(self).pending().unwrap()),
    {
        if self.handle.is_none() {
            let handle: H = register();
            self.handle = Some(handle);
            None
        } else {
            Some(register)
        }
    }

    /// Records that the registered callback fired: no registration is
    /// pending any more, and the outputs are now to be notified.
    pub fn frame_fired(&mut self)
        ensures
            final(self).pending() is None,
    {
        self.handle = None;
    }

    /// Tears the scheduler down: hands out the pending registration, if one
    /// is, for the caller to cancel.
    pub fn dispose(&mut self) -> (cancel: Option<H>)
        ensures
            cancel == old(self).pending(),
            final(self).pending() is None,
    {
        self.handle.take()
    }
}

/// Coalescing: however many requests arrive before the frame fires, the
/// platform sees exactly one registration if none was pending, and none if
/// one was.
pub proof fn lemma_requests_coalesce(pending: bool, calls: nat)
    ensures
        pending ==> registrations(pending, calls) == 0,
        !pending && calls > 0 ==> registrations(pending, calls) == 1,
    decreases calls,
{
    if calls > 0 {
        lemma_requests_coalesce(true, (calls - 1) as nat);
    }
}

} // verus!
